//! The pan-tilt-zoom control command group (category 0x0b).

use vstd::prelude::*;

use crate::FixedPointDecimal;
use crate::Operation;
use crate::commands::CommandData;
use crate::commands::protocol::decode_fpdx2;
use crate::commands::protocol::decode_i8x2;
use crate::commands::protocol::result_matches;
use crate::commands::protocol::spec_fpd_pair;
use crate::commands::protocol::spec_i8_pair;
use crate::error::DecodeFailure;
use crate::error::EldritchError;
use crate::error::failure_error;

verus! {

/// Pan-tilt-zoom commands, one variant per parameter byte.
#[derive(Clone, Debug, PartialEq)]
pub enum PtzControlCommand {
    /// Parameter 0x00: two fixed-point scalars.
    PanTiltVelocity { operation: Operation, data: PanTiltVelocityData },
    /// Parameter 0x01: two 8-bit integers.
    MemoryPreset { operation: Operation, data: MemoryPresetData },
}

#[derive(Clone, Debug, PartialEq)]
pub struct PanTiltVelocityData {
    pub pan_velocity: FixedPointDecimal,
    pub tilt_velocity: FixedPointDecimal,
}

#[derive(Clone, Debug, PartialEq)]
pub struct MemoryPresetData {
    pub preset_command: i8,
    pub preset_slot: i8,
}

/// The decode outcome the wire contract prescribes for a pan-tilt-zoom
/// record.
pub open spec fn spec_parse_ptz_control(b: Seq<u8>) -> Result<PtzControlCommand, DecodeFailure>
    recommends
        b.len() >= 4,
{
    if b[1] == 0x00 {
        match spec_fpd_pair(b) {
            Ok((operation, pan_velocity, tilt_velocity)) => Ok(
                PtzControlCommand::PanTiltVelocity {
                    operation,
                    data: PanTiltVelocityData { pan_velocity, tilt_velocity },
                },
            ),
            Err(f) => Err(f),
        }
    } else if b[1] == 0x01 {
        match spec_i8_pair(b) {
            Ok((operation, preset_command, preset_slot)) => Ok(
                PtzControlCommand::MemoryPreset {
                    operation,
                    data: MemoryPresetData { preset_command, preset_slot },
                },
            ),
            Err(f) => Err(f),
        }
    } else {
        Err(DecodeFailure::UnknownParameter)
    }
}

/// Decodes a pan-tilt-zoom record: a flat dispatch over the parameter
/// byte.
pub fn parse_command(command_data: CommandData) -> (r: Result<PtzControlCommand, EldritchError>)
    requires
        command_data.wf(),
    ensures
        result_matches(r, spec_parse_ptz_control(command_data.bytes@), command_data.bytes@),
{
    let cmd = &command_data;
    match cmd.parameter() {
        0x00 => match decode_fpdx2(cmd) {
            Ok((operation, pan_velocity, tilt_velocity)) => Ok(
                PtzControlCommand::PanTiltVelocity {
                    operation,
                    data: PanTiltVelocityData { pan_velocity, tilt_velocity },
                },
            ),
            Err(e) => Err(e),
        },
        0x01 => match decode_i8x2(cmd) {
            Ok((operation, preset_command, preset_slot)) => Ok(
                PtzControlCommand::MemoryPreset {
                    operation,
                    data: MemoryPresetData { preset_command, preset_slot },
                },
            ),
            Err(e) => Err(e),
        },
        _ => Err(failure_error(DecodeFailure::UnknownParameter, cmd.bytes)),
    }
}

} // verus!
