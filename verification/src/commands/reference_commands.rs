//! The reference command group (category 0x06).

use vstd::prelude::*;

use crate::Operation;
use crate::commands::CommandData;
use crate::commands::protocol::decode_i8;
use crate::commands::protocol::decode_i32;
use crate::commands::protocol::result_matches;
use crate::commands::protocol::spec_i8_scalar;
use crate::commands::protocol::spec_i32_scalar;
use crate::error::DecodeFailure;
use crate::error::EldritchError;
use crate::error::failure_error;

verus! {

/// Reference commands, one variant per parameter byte.
#[derive(Clone, Debug, PartialEq)]
pub enum ReferenceCommand {
    /// Parameter 0x00: 8-bit integer, bounds 0 to 1.
    Source { operation: Operation, data: i8 },
    /// Parameter 0x01: 32-bit integer, the full range.
    Offset { operation: Operation, data: i32 },
}

/// The decode outcome the wire contract prescribes for a reference record.
pub open spec fn spec_parse_reference(b: Seq<u8>) -> Result<ReferenceCommand, DecodeFailure>
    recommends
        b.len() >= 4,
{
    if b[1] == 0x00 {
        match spec_i8_scalar(b, 0, 1) {
            Ok((operation, data)) => Ok(ReferenceCommand::Source { operation, data }),
            Err(f) => Err(f),
        }
    } else if b[1] == 0x01 {
        match spec_i32_scalar(b, i32::MIN as int, i32::MAX as int) {
            Ok((operation, data)) => Ok(ReferenceCommand::Offset { operation, data }),
            Err(f) => Err(f),
        }
    } else {
        Err(DecodeFailure::UnknownParameter)
    }
}

/// Decodes a reference record: a flat dispatch over the parameter byte.
pub fn parse_command(command_data: CommandData) -> (r: Result<ReferenceCommand, EldritchError>)
    requires
        command_data.wf(),
    ensures
        result_matches(r, spec_parse_reference(command_data.bytes@), command_data.bytes@),
{
    let cmd = &command_data;
    match cmd.parameter() {
        0x00 => match decode_i8(cmd, 0, 1) {
            Ok((operation, data)) => Ok(ReferenceCommand::Source { operation, data }),
            Err(e) => Err(e),
        },
        0x01 => match decode_i32(cmd, i32::MIN, i32::MAX) {
            Ok((operation, data)) => Ok(ReferenceCommand::Offset { operation, data }),
            Err(e) => Err(e),
        },
        _ => Err(failure_error(DecodeFailure::UnknownParameter, cmd.bytes)),
    }
}

} // verus!
