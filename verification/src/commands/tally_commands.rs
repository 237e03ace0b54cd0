//! The tally command group (category 0x05).

use vstd::prelude::*;

use crate::FixedPointDecimal;
use crate::Operation;
use crate::commands::CommandData;
use crate::commands::protocol::decode_fpd;
use crate::commands::protocol::result_matches;
use crate::commands::protocol::spec_fpd_scalar;
use crate::error::DecodeFailure;
use crate::error::EldritchError;
use crate::error::failure_error;

verus! {

/// Tally commands, one variant per parameter byte.
#[derive(Clone, Debug, PartialEq)]
pub enum TallyCommand {
    /// Parameter 0x00: fixed-point, bounds 0.0 to 1.0.
    TallyBrightness { operation: Operation, data: FixedPointDecimal },
    /// Parameter 0x01: fixed-point, bounds 0.0 to 1.0.
    FrontTallyBrightness { operation: Operation, data: FixedPointDecimal },
    /// Parameter 0x02: fixed-point, bounds 0.0 to 1.0.
    RearTallyBrightness { operation: Operation, data: FixedPointDecimal },
}

/// The decode outcome the wire contract prescribes for a tally record.
pub open spec fn spec_parse_tally(b: Seq<u8>) -> Result<TallyCommand, DecodeFailure>
    recommends
        b.len() >= 4,
{
    if b[1] == 0x00 {
        match spec_fpd_scalar(b, 0, 2048) {
            Ok((operation, data)) => Ok(TallyCommand::TallyBrightness { operation, data }),
            Err(f) => Err(f),
        }
    } else if b[1] == 0x01 {
        match spec_fpd_scalar(b, 0, 2048) {
            Ok((operation, data)) => Ok(TallyCommand::FrontTallyBrightness { operation, data }),
            Err(f) => Err(f),
        }
    } else if b[1] == 0x02 {
        match spec_fpd_scalar(b, 0, 2048) {
            Ok((operation, data)) => Ok(TallyCommand::RearTallyBrightness { operation, data }),
            Err(f) => Err(f),
        }
    } else {
        Err(DecodeFailure::UnknownParameter)
    }
}

/// Decodes a tally record: a flat dispatch over the parameter byte.
pub fn parse_command(command_data: CommandData) -> (r: Result<TallyCommand, EldritchError>)
    requires
        command_data.wf(),
    ensures
        result_matches(r, spec_parse_tally(command_data.bytes@), command_data.bytes@),
{
    let cmd = &command_data;
    match cmd.parameter() {
        0x00 => match decode_fpd(cmd, 0, 2048) {
            Ok((operation, data)) => Ok(TallyCommand::TallyBrightness { operation, data }),
            Err(e) => Err(e),
        },
        0x01 => match decode_fpd(cmd, 0, 2048) {
            Ok((operation, data)) => Ok(TallyCommand::FrontTallyBrightness { operation, data }),
            Err(e) => Err(e),
        },
        0x02 => match decode_fpd(cmd, 0, 2048) {
            Ok((operation, data)) => Ok(TallyCommand::RearTallyBrightness { operation, data }),
            Err(e) => Err(e),
        },
        _ => Err(failure_error(DecodeFailure::UnknownParameter, cmd.bytes)),
    }
}

} // verus!
