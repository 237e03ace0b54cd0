//! The lens command group (category 0x00).

use vstd::prelude::*;

use crate::FixedPointDecimal;
use crate::Operation;
use crate::commands::CommandData;
use crate::commands::protocol::decode_bool;
use crate::commands::protocol::decode_fpd;
use crate::commands::protocol::decode_i16;
use crate::commands::protocol::result_matches;
use crate::commands::protocol::spec_bool;
use crate::commands::protocol::spec_fpd_scalar;
use crate::commands::protocol::spec_i16_scalar;
use crate::error::DecodeFailure;
use crate::error::EldritchError;
use crate::error::failure_error;

verus! {

/// Lens commands, one variant per parameter byte.
#[derive(Clone, Debug, PartialEq)]
pub enum LensCommand {
    /// Parameter 0x00: fixed-point, bounds 0.0 to 1.0.
    Focus { operation: Operation, data: FixedPointDecimal },
    /// Parameter 0x01: action, no payload.
    InstantaneousAutoFocus,
    /// Parameter 0x02: fixed-point, bounds -1.0 to 16.0.
    ApatureFStop { operation: Operation, data: FixedPointDecimal },
    /// Parameter 0x03: fixed-point, bounds 0.0 to 1.0.
    ApatureNormalized { operation: Operation, data: FixedPointDecimal },
    /// Parameter 0x04: 16-bit integer, at least 0.
    ApatureOrdinal { operation: Operation, data: i16 },
    /// Parameter 0x05: action, no payload.
    InstantaneousAutoApature,
    /// Parameter 0x06: boolean.
    OpticalImageStabalization { operation: Operation, data: bool },
    /// Parameter 0x07: 16-bit integer, at least 0.
    AbsoluteZoomMM { operation: Operation, data: i16 },
    /// Parameter 0x08: fixed-point, bounds 0.0 to 1.0.
    AbsoluteZoomNormalized { operation: Operation, data: FixedPointDecimal },
    /// Parameter 0x09: fixed-point, bounds -1.0 to 1.0.
    AbsoluteZoomContinuous { operation: Operation, data: FixedPointDecimal },
}

/// The decode outcome the wire contract prescribes for a lens record.
/// Fixed-point bounds are stated on the raw value: 2048 raw is 1.0 real,
/// -2048 is -1.0, and 16.0 lies past the representable maximum, so the
/// upper bound of `ApatureFStop` admits every raw value.
pub open spec fn spec_parse_lens(b: Seq<u8>) -> Result<LensCommand, DecodeFailure>
    recommends
        b.len() >= 4,
{
    if b[1] == 0x00 {
        match spec_fpd_scalar(b, 0, 2048) {
            Ok((operation, data)) => Ok(LensCommand::Focus { operation, data }),
            Err(f) => Err(f),
        }
    } else if b[1] == 0x01 {
        Ok(LensCommand::InstantaneousAutoFocus)
    } else if b[1] == 0x02 {
        match spec_fpd_scalar(b, -2048, i16::MAX as int) {
            Ok((operation, data)) => Ok(LensCommand::ApatureFStop { operation, data }),
            Err(f) => Err(f),
        }
    } else if b[1] == 0x03 {
        match spec_fpd_scalar(b, 0, 2048) {
            Ok((operation, data)) => Ok(LensCommand::ApatureNormalized { operation, data }),
            Err(f) => Err(f),
        }
    } else if b[1] == 0x04 {
        match spec_i16_scalar(b, 0, i16::MAX as int) {
            Ok((operation, data)) => Ok(LensCommand::ApatureOrdinal { operation, data }),
            Err(f) => Err(f),
        }
    } else if b[1] == 0x05 {
        Ok(LensCommand::InstantaneousAutoApature)
    } else if b[1] == 0x06 {
        match spec_bool(b) {
            Ok((operation, data)) => Ok(LensCommand::OpticalImageStabalization { operation, data }),
            Err(f) => Err(f),
        }
    } else if b[1] == 0x07 {
        match spec_i16_scalar(b, 0, i16::MAX as int) {
            Ok((operation, data)) => Ok(LensCommand::AbsoluteZoomMM { operation, data }),
            Err(f) => Err(f),
        }
    } else if b[1] == 0x08 {
        match spec_fpd_scalar(b, 0, 2048) {
            Ok((operation, data)) => Ok(LensCommand::AbsoluteZoomNormalized { operation, data }),
            Err(f) => Err(f),
        }
    } else if b[1] == 0x09 {
        match spec_fpd_scalar(b, -2048, 2048) {
            Ok((operation, data)) => Ok(LensCommand::AbsoluteZoomContinuous { operation, data }),
            Err(f) => Err(f),
        }
    } else {
        Err(DecodeFailure::UnknownParameter)
    }
}

/// Decodes a lens record: a flat dispatch over the parameter byte.
pub fn parse_command(command_data: CommandData) -> (r: Result<LensCommand, EldritchError>)
    requires
        command_data.wf(),
    ensures
        result_matches(r, spec_parse_lens(command_data.bytes@), command_data.bytes@),
{
    let cmd = &command_data;
    match cmd.parameter() {
        0x00 => match decode_fpd(cmd, 0, 2048) {
            Ok((operation, data)) => Ok(LensCommand::Focus { operation, data }),
            Err(e) => Err(e),
        },
        0x01 => Ok(LensCommand::InstantaneousAutoFocus),
        0x02 => match decode_fpd(cmd, -2048, i16::MAX) {
            Ok((operation, data)) => Ok(LensCommand::ApatureFStop { operation, data }),
            Err(e) => Err(e),
        },
        0x03 => match decode_fpd(cmd, 0, 2048) {
            Ok((operation, data)) => Ok(LensCommand::ApatureNormalized { operation, data }),
            Err(e) => Err(e),
        },
        0x04 => match decode_i16(cmd, 0, i16::MAX) {
            Ok((operation, data)) => Ok(LensCommand::ApatureOrdinal { operation, data }),
            Err(e) => Err(e),
        },
        0x05 => Ok(LensCommand::InstantaneousAutoApature),
        0x06 => match decode_bool(cmd) {
            Ok((operation, data)) => Ok(
                LensCommand::OpticalImageStabalization { operation, data },
            ),
            Err(e) => Err(e),
        },
        0x07 => match decode_i16(cmd, 0, i16::MAX) {
            Ok((operation, data)) => Ok(LensCommand::AbsoluteZoomMM { operation, data }),
            Err(e) => Err(e),
        },
        0x08 => match decode_fpd(cmd, 0, 2048) {
            Ok((operation, data)) => Ok(LensCommand::AbsoluteZoomNormalized { operation, data }),
            Err(e) => Err(e),
        },
        0x09 => match decode_fpd(cmd, -2048, 2048) {
            Ok((operation, data)) => Ok(LensCommand::AbsoluteZoomContinuous { operation, data }),
            Err(e) => Err(e),
        },
        _ => Err(failure_error(DecodeFailure::UnknownParameter, cmd.bytes)),
    }
}

/// Decodes a lens record: the group dispatch under its older, freestanding
/// name.
pub fn parse_lens_command(command_data: CommandData) -> (r: Result<LensCommand, EldritchError>)
    requires
        command_data.wf(),
    ensures
        result_matches(r, spec_parse_lens(command_data.bytes@), command_data.bytes@),
{
    parse_command(command_data)
}

} // verus!
