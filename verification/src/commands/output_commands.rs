//! The output command group (category 0x03).

use vstd::prelude::*;

use crate::FixedPointDecimal;
use crate::Operation;
use crate::commands::CommandData;
use crate::commands::protocol::decode_fpd;
use crate::commands::protocol::decode_i8;
use crate::commands::protocol::decode_i8x4;
use crate::commands::protocol::decode_i16;
use crate::commands::protocol::result_matches;
use crate::commands::protocol::spec_fpd_scalar;
use crate::commands::protocol::spec_i8_quad;
use crate::commands::protocol::spec_i8_scalar;
use crate::commands::protocol::spec_i16_scalar;
use crate::error::DecodeFailure;
use crate::error::EldritchError;
use crate::error::failure_error;

verus! {

/// Output commands, one variant per parameter byte.
#[derive(Clone, Debug, PartialEq)]
pub enum OutputCommand {
    /// Parameter 0x00: 16-bit integer, the full range.
    OverlayEnabled { operation: Operation, data: i16 },
    /// Parameter 0x01: 8-bit integer, bounds 0 to 8.
    FrameGuideStyles { operation: Operation, data: i8 },
    /// Parameter 0x02: fixed-point, bounds 0.1 to 1.0.
    FrameGuidesOpacity { operation: Operation, data: FixedPointDecimal },
    /// Parameter 0x03: four 8-bit integers.
    Overlays { operation: Operation, data: OverlaysData },
}

#[derive(Clone, Debug, PartialEq)]
pub struct OverlaysData {
    pub frame_guide_style: i8,
    pub frame_guide_opacity: i8,
    pub safe_area_percentage: i8,
    pub grid_style: i8,
}

/// The decode outcome the wire contract prescribes for an output record.
/// The opacity lower bound of 0.1 becomes 205 raw: the least raw value
/// whose real value reaches 0.1.
pub open spec fn spec_parse_output(b: Seq<u8>) -> Result<OutputCommand, DecodeFailure>
    recommends
        b.len() >= 4,
{
    if b[1] == 0x00 {
        match spec_i16_scalar(b, i16::MIN as int, i16::MAX as int) {
            Ok((operation, data)) => Ok(OutputCommand::OverlayEnabled { operation, data }),
            Err(f) => Err(f),
        }
    } else if b[1] == 0x01 {
        match spec_i8_scalar(b, 0, 8) {
            Ok((operation, data)) => Ok(OutputCommand::FrameGuideStyles { operation, data }),
            Err(f) => Err(f),
        }
    } else if b[1] == 0x02 {
        match spec_fpd_scalar(b, 205, 2048) {
            Ok((operation, data)) => Ok(OutputCommand::FrameGuidesOpacity { operation, data }),
            Err(f) => Err(f),
        }
    } else if b[1] == 0x03 {
        match spec_i8_quad(b) {
            Ok(
                (operation, frame_guide_style, frame_guide_opacity, safe_area_percentage, grid_style),
            ) => Ok(
                OutputCommand::Overlays {
                    operation,
                    data: OverlaysData {
                        frame_guide_style,
                        frame_guide_opacity,
                        safe_area_percentage,
                        grid_style,
                    },
                },
            ),
            Err(f) => Err(f),
        }
    } else {
        Err(DecodeFailure::UnknownParameter)
    }
}

/// Decodes an output record: a flat dispatch over the parameter byte.
pub fn parse_command(command_data: CommandData) -> (r: Result<OutputCommand, EldritchError>)
    requires
        command_data.wf(),
    ensures
        result_matches(r, spec_parse_output(command_data.bytes@), command_data.bytes@),
{
    let cmd = &command_data;
    match cmd.parameter() {
        0x00 => match decode_i16(cmd, i16::MIN, i16::MAX) {
            Ok((operation, data)) => Ok(OutputCommand::OverlayEnabled { operation, data }),
            Err(e) => Err(e),
        },
        0x01 => match decode_i8(cmd, 0, 8) {
            Ok((operation, data)) => Ok(OutputCommand::FrameGuideStyles { operation, data }),
            Err(e) => Err(e),
        },
        0x02 => match decode_fpd(cmd, 205, 2048) {
            Ok((operation, data)) => Ok(OutputCommand::FrameGuidesOpacity { operation, data }),
            Err(e) => Err(e),
        },
        0x03 => match decode_i8x4(cmd) {
            Ok(
                (operation, frame_guide_style, frame_guide_opacity, safe_area_percentage, grid_style),
            ) => Ok(
                OutputCommand::Overlays {
                    operation,
                    data: OverlaysData {
                        frame_guide_style,
                        frame_guide_opacity,
                        safe_area_percentage,
                        grid_style,
                    },
                },
            ),
            Err(e) => Err(e),
        },
        _ => Err(failure_error(DecodeFailure::UnknownParameter, cmd.bytes)),
    }
}

} // verus!
