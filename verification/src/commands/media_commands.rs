//! The media command group (category 0x0a).

use vstd::prelude::*;

use crate::Operation;
use crate::commands::CommandData;
use crate::commands::protocol::decode_i8x2;
use crate::commands::protocol::decode_i8x5;
use crate::commands::protocol::result_matches;
use crate::commands::protocol::spec_i8_five;
use crate::commands::protocol::spec_i8_pair;
use crate::error::DecodeFailure;
use crate::error::EldritchError;
use crate::error::failure_error;

verus! {

/// Media commands, one variant per parameter byte.
#[derive(Clone, Debug, PartialEq)]
pub enum MediaCommand {
    /// Parameter 0x00: two 8-bit integers.
    Codec { operation: Operation, data: CodecData },
    /// Parameter 0x01: five 8-bit integers.
    TransportMode { operation: Operation, data: TransportModeData },
}

#[derive(Clone, Debug, PartialEq)]
pub struct CodecData {
    pub basic_codec: i8,
    pub codec_varient: i8,
}

#[derive(Clone, Debug, PartialEq)]
pub struct TransportModeData {
    pub mode: i8,
    pub speed: i8,
    pub flags: i8,
    pub slot_one_storage_medium: i8,
    pub slot_two_storage_medium: i8,
}

/// The decode outcome the wire contract prescribes for a media record.
pub open spec fn spec_parse_media(b: Seq<u8>) -> Result<MediaCommand, DecodeFailure>
    recommends
        b.len() >= 4,
{
    if b[1] == 0x00 {
        match spec_i8_pair(b) {
            Ok((operation, basic_codec, codec_varient)) => Ok(
                MediaCommand::Codec { operation, data: CodecData { basic_codec, codec_varient } },
            ),
            Err(f) => Err(f),
        }
    } else if b[1] == 0x01 {
        match spec_i8_five(b) {
            Ok(
                (operation, mode, speed, flags, slot_one_storage_medium, slot_two_storage_medium),
            ) => Ok(
                MediaCommand::TransportMode {
                    operation,
                    data: TransportModeData {
                        mode,
                        speed,
                        flags,
                        slot_one_storage_medium,
                        slot_two_storage_medium,
                    },
                },
            ),
            Err(f) => Err(f),
        }
    } else {
        Err(DecodeFailure::UnknownParameter)
    }
}

/// Decodes a media record: a flat dispatch over the parameter byte.
pub fn parse_command(command_data: CommandData) -> (r: Result<MediaCommand, EldritchError>)
    requires
        command_data.wf(),
    ensures
        result_matches(r, spec_parse_media(command_data.bytes@), command_data.bytes@),
{
    let cmd = &command_data;
    match cmd.parameter() {
        0x00 => match decode_i8x2(cmd) {
            Ok((operation, basic_codec, codec_varient)) => Ok(
                MediaCommand::Codec { operation, data: CodecData { basic_codec, codec_varient } },
            ),
            Err(e) => Err(e),
        },
        0x01 => match decode_i8x5(cmd) {
            Ok(
                (operation, mode, speed, flags, slot_one_storage_medium, slot_two_storage_medium),
            ) => Ok(
                MediaCommand::TransportMode {
                    operation,
                    data: TransportModeData {
                        mode,
                        speed,
                        flags,
                        slot_one_storage_medium,
                        slot_two_storage_medium,
                    },
                },
            ),
            Err(e) => Err(e),
        },
        _ => Err(failure_error(DecodeFailure::UnknownParameter, cmd.bytes)),
    }
}

} // verus!
