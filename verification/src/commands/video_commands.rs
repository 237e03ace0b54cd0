//! The video command group (category 0x01).

use vstd::prelude::*;

use crate::Operation;
use crate::commands::CommandData;
use crate::commands::protocol::decode_i8;
use crate::commands::protocol::decode_i8x2;
use crate::commands::protocol::decode_i8x5;
use crate::commands::protocol::decode_i16;
use crate::commands::protocol::decode_i16x2;
use crate::commands::protocol::decode_i16x5;
use crate::commands::protocol::decode_i32;
use crate::commands::protocol::result_matches;
use crate::commands::protocol::spec_i8_five;
use crate::commands::protocol::spec_i8_pair;
use crate::commands::protocol::spec_i8_scalar;
use crate::commands::protocol::spec_i16_five;
use crate::commands::protocol::spec_i16_pair;
use crate::commands::protocol::spec_i16_scalar;
use crate::commands::protocol::spec_i32_scalar;
use crate::error::DecodeFailure;
use crate::error::EldritchError;
use crate::error::failure_error;
use crate::FixedPointDecimal;

verus! {

/// Video commands, one variant per parameter byte.
#[derive(Clone, Debug, PartialEq)]
pub enum VideoCommand {
    /// Parameter 0x00: five 8-bit integers.
    VideoMode { operation: Operation, data: VideoModeData },
    /// Parameter 0x01: 8-bit integer, bounds 1 to 16.
    GainUpToCamera49 { operation: Operation, data: i8 },
    /// Parameter 0x02: two 16-bit integers.
    ManualWhiteBalance { operation: Operation, data: ManualWhiteBalanceData },
    /// Parameter 0x03: action, no payload.
    SetAutoWB,
    /// Parameter 0x04: action, no payload.
    RestoreAutoWB,
    /// Parameter 0x05: 32-bit integer, bounds 1 to 42000.
    ExposureUS { operation: Operation, data: i32 },
    /// Parameter 0x06: 16-bit integer, at least 0.
    ExposureOrdinal { operation: Operation, data: i16 },
    /// Parameter 0x07: 8-bit integer, bounds 0 to 1.
    DynamicRageMode { operation: Operation, data: i8 },
    /// Parameter 0x08: 8-bit integer, bounds 0 to 3.
    VideoSharpeningLevel { operation: Operation, data: i8 },
    /// Parameter 0x09: five 16-bit integers.
    RecordingFormat { operation: Operation, data: RecordingFormatData },
    /// Parameter 0x0a: 8-bit integer, bounds 0 to 4.
    SetAutoExposureMode { operation: Operation, data: i8 },
    /// Parameter 0x0b: 32-bit integer, bounds 100 to 36000.
    ShutterAngle { operation: Operation, data: i32 },
    /// Parameter 0x0c: 32-bit integer, bounds 24 to 2000.
    ShutterSpeed { operation: Operation, data: i32 },
    /// Parameter 0x0d: 8-bit integer, the full range.
    Gain { operation: Operation, data: i8 },
    /// Parameter 0x0e: 32-bit integer, at least 0.
    ISO { operation: Operation, data: i32 },
    /// Parameter 0x0f: two 8-bit integers.
    DisplayLUT { operation: Operation, data: DisplayLUTData },
    /// Parameter 0x10: treated as an action; the neutral-density filter
    /// report is accepted and its payload ignored.
    NDFilterStop,
}

#[derive(Clone, Debug, PartialEq)]
pub struct VideoModeData {
    pub frame_rate: i8,
    pub m_rate: i8,
    pub dimensions: i8,
    pub interlaced: i8,
    pub color_space: i8,
}

#[derive(Clone, Debug, PartialEq)]
pub struct ManualWhiteBalanceData {
    pub color_temp: i16,
    pub tint: i16,
}

#[derive(Clone, Debug, PartialEq)]
pub struct RecordingFormatData {
    pub file_frame_rate: i16,
    pub sensor_frame_rate: i16,
    pub frame_width: i16,
    pub frame_height: i16,
    pub flags: i16,
}

#[derive(Clone, Debug, PartialEq)]
pub struct DisplayLUTData {
    pub selected: i8,
    pub enabled: i8,
}

/// The structured form of video parameter 0x10: two fixed-point scalars.
/// The decoder here takes the action form instead and ignores the payload,
/// so this shape is carried for callers that describe the filter.
#[derive(Clone, Debug, PartialEq)]
pub struct NDFilterStopData {
    pub stop: FixedPointDecimal,
    pub display_mode: FixedPointDecimal,
}

/// The decode outcome the wire contract prescribes for a video record.
pub open spec fn spec_parse_video(b: Seq<u8>) -> Result<VideoCommand, DecodeFailure>
    recommends
        b.len() >= 4,
{
    if b[1] == 0x00 {
        match spec_i8_five(b) {
            Ok((operation, frame_rate, m_rate, dimensions, interlaced, color_space)) => Ok(
                VideoCommand::VideoMode {
                    operation,
                    data: VideoModeData { frame_rate, m_rate, dimensions, interlaced, color_space },
                },
            ),
            Err(f) => Err(f),
        }
    } else if b[1] == 0x01 {
        match spec_i8_scalar(b, 1, 16) {
            Ok((operation, data)) => Ok(VideoCommand::GainUpToCamera49 { operation, data }),
            Err(f) => Err(f),
        }
    } else if b[1] == 0x02 {
        match spec_i16_pair(b) {
            Ok((operation, color_temp, tint)) => Ok(
                VideoCommand::ManualWhiteBalance {
                    operation,
                    data: ManualWhiteBalanceData { color_temp, tint },
                },
            ),
            Err(f) => Err(f),
        }
    } else if b[1] == 0x03 {
        Ok(VideoCommand::SetAutoWB)
    } else if b[1] == 0x04 {
        Ok(VideoCommand::RestoreAutoWB)
    } else if b[1] == 0x05 {
        match spec_i32_scalar(b, 1, 42000) {
            Ok((operation, data)) => Ok(VideoCommand::ExposureUS { operation, data }),
            Err(f) => Err(f),
        }
    } else if b[1] == 0x06 {
        match spec_i16_scalar(b, 0, i16::MAX as int) {
            Ok((operation, data)) => Ok(VideoCommand::ExposureOrdinal { operation, data }),
            Err(f) => Err(f),
        }
    } else if b[1] == 0x07 {
        match spec_i8_scalar(b, 0, 1) {
            Ok((operation, data)) => Ok(VideoCommand::DynamicRageMode { operation, data }),
            Err(f) => Err(f),
        }
    } else if b[1] == 0x08 {
        match spec_i8_scalar(b, 0, 3) {
            Ok((operation, data)) => Ok(VideoCommand::VideoSharpeningLevel { operation, data }),
            Err(f) => Err(f),
        }
    } else if b[1] == 0x09 {
        match spec_i16_five(b) {
            Ok(
                (operation, file_frame_rate, sensor_frame_rate, frame_width, frame_height, flags),
            ) => Ok(
                VideoCommand::RecordingFormat {
                    operation,
                    data: RecordingFormatData {
                        file_frame_rate,
                        sensor_frame_rate,
                        frame_width,
                        frame_height,
                        flags,
                    },
                },
            ),
            Err(f) => Err(f),
        }
    } else if b[1] == 0x0a {
        match spec_i8_scalar(b, 0, 4) {
            Ok((operation, data)) => Ok(VideoCommand::SetAutoExposureMode { operation, data }),
            Err(f) => Err(f),
        }
    } else if b[1] == 0x0b {
        match spec_i32_scalar(b, 100, 36000) {
            Ok((operation, data)) => Ok(VideoCommand::ShutterAngle { operation, data }),
            Err(f) => Err(f),
        }
    } else if b[1] == 0x0c {
        match spec_i32_scalar(b, 24, 2000) {
            Ok((operation, data)) => Ok(VideoCommand::ShutterSpeed { operation, data }),
            Err(f) => Err(f),
        }
    } else if b[1] == 0x0d {
        match spec_i8_scalar(b, -128, 127) {
            Ok((operation, data)) => Ok(VideoCommand::Gain { operation, data }),
            Err(f) => Err(f),
        }
    } else if b[1] == 0x0e {
        match spec_i32_scalar(b, 0, i32::MAX as int) {
            Ok((operation, data)) => Ok(VideoCommand::ISO { operation, data }),
            Err(f) => Err(f),
        }
    } else if b[1] == 0x0f {
        match spec_i8_pair(b) {
            Ok((operation, selected, enabled)) => Ok(
                VideoCommand::DisplayLUT { operation, data: DisplayLUTData { selected, enabled } },
            ),
            Err(f) => Err(f),
        }
    } else if b[1] == 0x10 {
        Ok(VideoCommand::NDFilterStop)
    } else {
        Err(DecodeFailure::UnknownParameter)
    }
}

/// Decodes a video record: a flat dispatch over the parameter byte.
pub fn parse_command(command_data: CommandData) -> (r: Result<VideoCommand, EldritchError>)
    requires
        command_data.wf(),
    ensures
        result_matches(r, spec_parse_video(command_data.bytes@), command_data.bytes@),
{
    let cmd = &command_data;
    match cmd.parameter() {
        0x00 => match decode_i8x5(cmd) {
            Ok((operation, frame_rate, m_rate, dimensions, interlaced, color_space)) => Ok(
                VideoCommand::VideoMode {
                    operation,
                    data: VideoModeData { frame_rate, m_rate, dimensions, interlaced, color_space },
                },
            ),
            Err(e) => Err(e),
        },
        0x01 => match decode_i8(cmd, 1, 16) {
            Ok((operation, data)) => Ok(VideoCommand::GainUpToCamera49 { operation, data }),
            Err(e) => Err(e),
        },
        0x02 => match decode_i16x2(cmd) {
            Ok((operation, color_temp, tint)) => Ok(
                VideoCommand::ManualWhiteBalance {
                    operation,
                    data: ManualWhiteBalanceData { color_temp, tint },
                },
            ),
            Err(e) => Err(e),
        },
        0x03 => Ok(VideoCommand::SetAutoWB),
        0x04 => Ok(VideoCommand::RestoreAutoWB),
        0x05 => match decode_i32(cmd, 1, 42000) {
            Ok((operation, data)) => Ok(VideoCommand::ExposureUS { operation, data }),
            Err(e) => Err(e),
        },
        0x06 => match decode_i16(cmd, 0, i16::MAX) {
            Ok((operation, data)) => Ok(VideoCommand::ExposureOrdinal { operation, data }),
            Err(e) => Err(e),
        },
        0x07 => match decode_i8(cmd, 0, 1) {
            Ok((operation, data)) => Ok(VideoCommand::DynamicRageMode { operation, data }),
            Err(e) => Err(e),
        },
        0x08 => match decode_i8(cmd, 0, 3) {
            Ok((operation, data)) => Ok(VideoCommand::VideoSharpeningLevel { operation, data }),
            Err(e) => Err(e),
        },
        0x09 => match decode_i16x5(cmd) {
            Ok(
                (operation, file_frame_rate, sensor_frame_rate, frame_width, frame_height, flags),
            ) => Ok(
                VideoCommand::RecordingFormat {
                    operation,
                    data: RecordingFormatData {
                        file_frame_rate,
                        sensor_frame_rate,
                        frame_width,
                        frame_height,
                        flags,
                    },
                },
            ),
            Err(e) => Err(e),
        },
        0x0a => match decode_i8(cmd, 0, 4) {
            Ok((operation, data)) => Ok(VideoCommand::SetAutoExposureMode { operation, data }),
            Err(e) => Err(e),
        },
        0x0b => match decode_i32(cmd, 100, 36000) {
            Ok((operation, data)) => Ok(VideoCommand::ShutterAngle { operation, data }),
            Err(e) => Err(e),
        },
        0x0c => match decode_i32(cmd, 24, 2000) {
            Ok((operation, data)) => Ok(VideoCommand::ShutterSpeed { operation, data }),
            Err(e) => Err(e),
        },
        0x0d => match decode_i8(cmd, -128, 127) {
            Ok((operation, data)) => Ok(VideoCommand::Gain { operation, data }),
            Err(e) => Err(e),
        },
        0x0e => match decode_i32(cmd, 0, i32::MAX) {
            Ok((operation, data)) => Ok(VideoCommand::ISO { operation, data }),
            Err(e) => Err(e),
        },
        0x0f => match decode_i8x2(cmd) {
            Ok((operation, selected, enabled)) => Ok(
                VideoCommand::DisplayLUT { operation, data: DisplayLUTData { selected, enabled } },
            ),
            Err(e) => Err(e),
        },
        0x10 => Ok(VideoCommand::NDFilterStop),
        _ => Err(failure_error(DecodeFailure::UnknownParameter, cmd.bytes)),
    }
}

} // verus!
