//! The audio command group (category 0x02).

use vstd::prelude::*;

use crate::FixedPointDecimal;
use crate::Operation;
use crate::commands::CommandData;
use crate::commands::protocol::decode_bool;
use crate::commands::protocol::decode_fpd;
use crate::commands::protocol::decode_fpdx2;
use crate::commands::protocol::decode_i8;
use crate::commands::protocol::result_matches;
use crate::commands::protocol::spec_bool;
use crate::commands::protocol::spec_fpd_pair;
use crate::commands::protocol::spec_fpd_scalar;
use crate::commands::protocol::spec_i8_scalar;
use crate::error::DecodeFailure;
use crate::error::EldritchError;
use crate::error::failure_error;

verus! {

/// Audio commands, one variant per parameter byte.
#[derive(Clone, Debug, PartialEq)]
pub enum AudioCommand {
    /// Parameter 0x00: fixed-point, bounds 0.0 to 1.0.
    MicLevel { operation: Operation, data: FixedPointDecimal },
    /// Parameter 0x01: fixed-point, bounds 0.0 to 1.0.
    HeadphoneLevel { operation: Operation, data: FixedPointDecimal },
    /// Parameter 0x02: fixed-point, bounds 0.0 to 1.0.
    HeadphoneProgramMix { operation: Operation, data: FixedPointDecimal },
    /// Parameter 0x03: fixed-point, bounds 0.0 to 1.0.
    SpeakerLevel { operation: Operation, data: FixedPointDecimal },
    /// Parameter 0x04: 8-bit integer, bounds 0 to 3.
    InputType { operation: Operation, data: i8 },
    /// Parameter 0x05: two fixed-point scalars.
    InputLevels { operation: Operation, data: InputLevelsData },
    /// Parameter 0x06: boolean.
    PhantomPower { operation: Operation, data: bool },
}

#[derive(Clone, Debug, PartialEq)]
pub struct InputLevelsData {
    pub channel_one: FixedPointDecimal,
    pub channel_two: FixedPointDecimal,
}

/// The decode outcome the wire contract prescribes for an audio record.
pub open spec fn spec_parse_audio(b: Seq<u8>) -> Result<AudioCommand, DecodeFailure>
    recommends
        b.len() >= 4,
{
    if b[1] == 0x00 {
        match spec_fpd_scalar(b, 0, 2048) {
            Ok((operation, data)) => Ok(AudioCommand::MicLevel { operation, data }),
            Err(f) => Err(f),
        }
    } else if b[1] == 0x01 {
        match spec_fpd_scalar(b, 0, 2048) {
            Ok((operation, data)) => Ok(AudioCommand::HeadphoneLevel { operation, data }),
            Err(f) => Err(f),
        }
    } else if b[1] == 0x02 {
        match spec_fpd_scalar(b, 0, 2048) {
            Ok((operation, data)) => Ok(AudioCommand::HeadphoneProgramMix { operation, data }),
            Err(f) => Err(f),
        }
    } else if b[1] == 0x03 {
        match spec_fpd_scalar(b, 0, 2048) {
            Ok((operation, data)) => Ok(AudioCommand::SpeakerLevel { operation, data }),
            Err(f) => Err(f),
        }
    } else if b[1] == 0x04 {
        match spec_i8_scalar(b, 0, 3) {
            Ok((operation, data)) => Ok(AudioCommand::InputType { operation, data }),
            Err(f) => Err(f),
        }
    } else if b[1] == 0x05 {
        match spec_fpd_pair(b) {
            Ok((operation, channel_one, channel_two)) => Ok(
                AudioCommand::InputLevels {
                    operation,
                    data: InputLevelsData { channel_one, channel_two },
                },
            ),
            Err(f) => Err(f),
        }
    } else if b[1] == 0x06 {
        match spec_bool(b) {
            Ok((operation, data)) => Ok(AudioCommand::PhantomPower { operation, data }),
            Err(f) => Err(f),
        }
    } else {
        Err(DecodeFailure::UnknownParameter)
    }
}

/// Decodes an audio record: a flat dispatch over the parameter byte.
pub fn parse_command(command_data: CommandData) -> (r: Result<AudioCommand, EldritchError>)
    requires
        command_data.wf(),
    ensures
        result_matches(r, spec_parse_audio(command_data.bytes@), command_data.bytes@),
{
    let cmd = &command_data;
    match cmd.parameter() {
        0x00 => match decode_fpd(cmd, 0, 2048) {
            Ok((operation, data)) => Ok(AudioCommand::MicLevel { operation, data }),
            Err(e) => Err(e),
        },
        0x01 => match decode_fpd(cmd, 0, 2048) {
            Ok((operation, data)) => Ok(AudioCommand::HeadphoneLevel { operation, data }),
            Err(e) => Err(e),
        },
        0x02 => match decode_fpd(cmd, 0, 2048) {
            Ok((operation, data)) => Ok(AudioCommand::HeadphoneProgramMix { operation, data }),
            Err(e) => Err(e),
        },
        0x03 => match decode_fpd(cmd, 0, 2048) {
            Ok((operation, data)) => Ok(AudioCommand::SpeakerLevel { operation, data }),
            Err(e) => Err(e),
        },
        0x04 => match decode_i8(cmd, 0, 3) {
            Ok((operation, data)) => Ok(AudioCommand::InputType { operation, data }),
            Err(e) => Err(e),
        },
        0x05 => match decode_fpdx2(cmd) {
            Ok((operation, channel_one, channel_two)) => Ok(
                AudioCommand::InputLevels {
                    operation,
                    data: InputLevelsData { channel_one, channel_two },
                },
            ),
            Err(e) => Err(e),
        },
        0x06 => match decode_bool(cmd) {
            Ok((operation, data)) => Ok(AudioCommand::PhantomPower { operation, data }),
            Err(e) => Err(e),
        },
        _ => Err(failure_error(DecodeFailure::UnknownParameter, cmd.bytes)),
    }
}

} // verus!
