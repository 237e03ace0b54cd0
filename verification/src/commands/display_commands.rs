//! The display command group (category 0x04).

use vstd::prelude::*;

use crate::FixedPointDecimal;
use crate::Operation;
use crate::commands::CommandData;
use crate::commands::protocol::decode_fpd;
use crate::commands::protocol::decode_i8;
use crate::commands::protocol::decode_i8x2;
use crate::commands::protocol::decode_i16;
use crate::commands::protocol::result_matches;
use crate::commands::protocol::spec_fpd_scalar;
use crate::commands::protocol::spec_i8_pair;
use crate::commands::protocol::spec_i8_scalar;
use crate::commands::protocol::spec_i16_scalar;
use crate::error::DecodeFailure;
use crate::error::EldritchError;
use crate::error::failure_error;

verus! {

/// Display commands, one variant per parameter byte.
#[derive(Clone, Debug, PartialEq)]
pub enum DisplayCommand {
    /// Parameter 0x00: fixed-point, bounds 0.0 to 1.0.
    Brightness { operation: Operation, data: FixedPointDecimal },
    /// Parameter 0x01: 16-bit integer, the full range.
    OverlaysEnabled { operation: Operation, data: i16 },
    /// Parameter 0x02: fixed-point, bounds 0.0 to 1.0.
    ZebraLevel { operation: Operation, data: FixedPointDecimal },
    /// Parameter 0x03: fixed-point, bounds 0.0 to 1.0.
    PeakingLevel { operation: Operation, data: FixedPointDecimal },
    /// Parameter 0x04: 8-bit integer, bounds 0 to 30.
    ColorBarsDisplayTime { operation: Operation, data: i8 },
    /// Parameter 0x05: two 8-bit integers.
    FocusAssist { operation: Operation, data: FocusAssistData },
}

#[derive(Clone, Debug, PartialEq)]
pub struct FocusAssistData {
    pub focus_assist_method: i8,
    pub focus_line_color: i8,
}

/// The decode outcome the wire contract prescribes for a display record.
pub open spec fn spec_parse_display(b: Seq<u8>) -> Result<DisplayCommand, DecodeFailure>
    recommends
        b.len() >= 4,
{
    if b[1] == 0x00 {
        match spec_fpd_scalar(b, 0, 2048) {
            Ok((operation, data)) => Ok(DisplayCommand::Brightness { operation, data }),
            Err(f) => Err(f),
        }
    } else if b[1] == 0x01 {
        match spec_i16_scalar(b, i16::MIN as int, i16::MAX as int) {
            Ok((operation, data)) => Ok(DisplayCommand::OverlaysEnabled { operation, data }),
            Err(f) => Err(f),
        }
    } else if b[1] == 0x02 {
        match spec_fpd_scalar(b, 0, 2048) {
            Ok((operation, data)) => Ok(DisplayCommand::ZebraLevel { operation, data }),
            Err(f) => Err(f),
        }
    } else if b[1] == 0x03 {
        match spec_fpd_scalar(b, 0, 2048) {
            Ok((operation, data)) => Ok(DisplayCommand::PeakingLevel { operation, data }),
            Err(f) => Err(f),
        }
    } else if b[1] == 0x04 {
        match spec_i8_scalar(b, 0, 30) {
            Ok((operation, data)) => Ok(DisplayCommand::ColorBarsDisplayTime { operation, data }),
            Err(f) => Err(f),
        }
    } else if b[1] == 0x05 {
        match spec_i8_pair(b) {
            Ok((operation, focus_assist_method, focus_line_color)) => Ok(
                DisplayCommand::FocusAssist {
                    operation,
                    data: FocusAssistData { focus_assist_method, focus_line_color },
                },
            ),
            Err(f) => Err(f),
        }
    } else {
        Err(DecodeFailure::UnknownParameter)
    }
}

/// Decodes a display record: a flat dispatch over the parameter byte.
pub fn parse_command(command_data: CommandData) -> (r: Result<DisplayCommand, EldritchError>)
    requires
        command_data.wf(),
    ensures
        result_matches(r, spec_parse_display(command_data.bytes@), command_data.bytes@),
{
    let cmd = &command_data;
    match cmd.parameter() {
        0x00 => match decode_fpd(cmd, 0, 2048) {
            Ok((operation, data)) => Ok(DisplayCommand::Brightness { operation, data }),
            Err(e) => Err(e),
        },
        0x01 => match decode_i16(cmd, i16::MIN, i16::MAX) {
            Ok((operation, data)) => Ok(DisplayCommand::OverlaysEnabled { operation, data }),
            Err(e) => Err(e),
        },
        0x02 => match decode_fpd(cmd, 0, 2048) {
            Ok((operation, data)) => Ok(DisplayCommand::ZebraLevel { operation, data }),
            Err(e) => Err(e),
        },
        0x03 => match decode_fpd(cmd, 0, 2048) {
            Ok((operation, data)) => Ok(DisplayCommand::PeakingLevel { operation, data }),
            Err(e) => Err(e),
        },
        0x04 => match decode_i8(cmd, 0, 30) {
            Ok((operation, data)) => Ok(DisplayCommand::ColorBarsDisplayTime { operation, data }),
            Err(e) => Err(e),
        },
        0x05 => match decode_i8x2(cmd) {
            Ok((operation, focus_assist_method, focus_line_color)) => Ok(
                DisplayCommand::FocusAssist {
                    operation,
                    data: FocusAssistData { focus_assist_method, focus_line_color },
                },
            ),
            Err(e) => Err(e),
        },
        _ => Err(failure_error(DecodeFailure::UnknownParameter, cmd.bytes)),
    }
}

} // verus!
