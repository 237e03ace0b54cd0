//! The configuration command group (category 0x07).
//!
//! The system-language command carries a UTF-8 string, which has no
//! spec-level constructor, so this group's contract splits in two: the
//! string parameter is pinned by a predicate over the result's view, and
//! every other parameter by the usual spec-level decode function.

use vstd::prelude::*;

use crate::Operation;
use crate::commands::CommandData;
use crate::commands::protocol::decode_i32;
use crate::commands::protocol::decode_i32x2;
use crate::commands::protocol::decode_i64x2;
use crate::commands::protocol::decode_string;
use crate::commands::protocol::result_matches;
use crate::commands::protocol::spec_i32_pair;
use crate::commands::protocol::spec_i32_scalar;
use crate::commands::protocol::spec_i64_pair;
use crate::spec_operation;
use crate::commands::protocol::spec_payload;
use crate::error::DecodeFailure;
use crate::error::EldritchError;
use crate::error::failure_error;
use crate::error::matches_failure;

verus! {

/// Configuration commands, one variant per parameter byte.
#[derive(Clone, Debug, PartialEq)]
pub enum ConfigurationCommand {
    /// Parameter 0x00: two 32-bit integers.
    RealTimeClock { operation: Operation, data: RealTimeClockData },
    /// Parameter 0x01: the payload taken whole as a UTF-8 string.
    SystemLanguage { operation: Operation, data: String },
    /// Parameter 0x03: 32-bit integer, the full range.
    TimeZone { operation: Operation, data: i32 },
    /// Parameter 0x04: two 64-bit integers.
    Location { operation: Operation, data: LocationData },
}

#[derive(Clone, Debug, PartialEq)]
pub struct RealTimeClockData {
    pub time: i32,
    pub date: i32,
}

#[derive(Clone, Debug, PartialEq)]
pub struct LocationData {
    pub laditude: i64,
    pub longitude: i64,
}

/// The decode outcome the wire contract prescribes for a configuration
/// record whose parameter is not the string-typed 0x01.
pub open spec fn spec_parse_configuration(b: Seq<u8>) -> Result<ConfigurationCommand, DecodeFailure>
    recommends
        b.len() >= 4,
        b[1] != 0x01,
{
    if b[1] == 0x00 {
        match spec_i32_pair(b) {
            Ok((operation, time, date)) => Ok(
                ConfigurationCommand::RealTimeClock {
                    operation,
                    data: RealTimeClockData { time, date },
                },
            ),
            Err(f) => Err(f),
        }
    } else if b[1] == 0x03 {
        match spec_i32_scalar(b, i32::MIN as int, i32::MAX as int) {
            Ok((operation, data)) => Ok(ConfigurationCommand::TimeZone { operation, data }),
            Err(f) => Err(f),
        }
    } else if b[1] == 0x04 {
        match spec_i64_pair(b) {
            Ok((operation, laditude, longitude)) => Ok(
                ConfigurationCommand::Location {
                    operation,
                    data: LocationData { laditude, longitude },
                },
            ),
            Err(f) => Err(f),
        }
    } else {
        Err(DecodeFailure::UnknownParameter)
    }
}

/// Holds when `r` is the decode result the wire contract prescribes for a
/// configuration record, the string-typed parameter included.
pub open spec fn configuration_matches(
    b: Seq<u8>,
    r: Result<ConfigurationCommand, EldritchError>,
) -> bool
    recommends
        b.len() >= 4,
{
    if b[1] == 0x01 {
        if b[2] != 0x05 {
            r matches Err(e) && matches_failure(e, DecodeFailure::WrongDataType, b)
        } else if vstd::utf8::valid_utf8(spec_payload(b)) {
            &&& r matches Ok(c)
            &&& c matches ConfigurationCommand::SystemLanguage { operation, data }
            &&& operation == spec_operation(b[3])
            &&& data@ == vstd::utf8::decode_utf8(spec_payload(b))
        } else {
            r matches Err(e) && matches_failure(e, DecodeFailure::BadUtf8, b)
        }
    } else {
        result_matches(r, spec_parse_configuration(b), b)
    }
}

/// Decodes a configuration record: a flat dispatch over the parameter
/// byte.
pub fn parse_command(command_data: CommandData) -> (r: Result<ConfigurationCommand, EldritchError>)
    requires
        command_data.wf(),
    ensures
        configuration_matches(command_data.bytes@, r),
{
    let cmd = &command_data;
    match cmd.parameter() {
        0x00 => match decode_i32x2(cmd) {
            Ok((operation, time, date)) => Ok(
                ConfigurationCommand::RealTimeClock {
                    operation,
                    data: RealTimeClockData { time, date },
                },
            ),
            Err(e) => Err(e),
        },
        0x01 => match decode_string(cmd) {
            Ok((operation, data)) => Ok(ConfigurationCommand::SystemLanguage { operation, data }),
            Err(e) => Err(e),
        },
        0x03 => match decode_i32(cmd, i32::MIN, i32::MAX) {
            Ok((operation, data)) => Ok(ConfigurationCommand::TimeZone { operation, data }),
            Err(e) => Err(e),
        },
        0x04 => match decode_i64x2(cmd) {
            Ok((operation, laditude, longitude)) => Ok(
                ConfigurationCommand::Location {
                    operation,
                    data: LocationData { laditude, longitude },
                },
            ),
            Err(e) => Err(e),
        },
        _ => Err(failure_error(DecodeFailure::UnknownParameter, cmd.bytes)),
    }
}

} // verus!
