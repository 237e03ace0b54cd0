//! The color-correction command group (category 0x08).

use vstd::prelude::*;

use crate::FixedPointDecimal;
use crate::Operation;
use crate::commands::CommandData;
use crate::commands::protocol::decode_fpd;
use crate::commands::protocol::decode_fpdx2;
use crate::commands::protocol::decode_fpdx4;
use crate::commands::protocol::result_matches;
use crate::commands::protocol::spec_fpd_pair;
use crate::commands::protocol::spec_fpd_quad;
use crate::commands::protocol::spec_fpd_scalar;
use crate::error::DecodeFailure;
use crate::error::EldritchError;
use crate::error::failure_error;

verus! {

/// Color-correction commands, one variant per parameter byte.
#[derive(Clone, Debug, PartialEq)]
pub enum ColorCorrectionCommand {
    /// Parameter 0x00: four fixed-point scalars.
    LiftAdjust { operation: Operation, data: RedGreenBlueLuma },
    /// Parameter 0x01: four fixed-point scalars.
    GammaAdjust { operation: Operation, data: RedGreenBlueLuma },
    /// Parameter 0x02: four fixed-point scalars.
    GainAdjust { operation: Operation, data: RedGreenBlueLuma },
    /// Parameter 0x03: four fixed-point scalars.
    OffsetAdjust { operation: Operation, data: RedGreenBlueLuma },
    /// Parameter 0x04: two fixed-point scalars.
    ContrastAdjust { operation: Operation, data: ContrastAdjustData },
    /// Parameter 0x05: fixed-point, bounds 0.0 to 1.0.
    LumaMix { operation: Operation, data: FixedPointDecimal },
    /// Parameter 0x06: two fixed-point scalars.
    ColorAdjust { operation: Operation, data: ColorAdjustData },
    /// Parameter 0x07: action, no payload.
    CorrectionResetDefault,
}

#[derive(Clone, Debug, PartialEq)]
pub struct RedGreenBlueLuma {
    pub red: FixedPointDecimal,
    pub green: FixedPointDecimal,
    pub blue: FixedPointDecimal,
    pub luma: FixedPointDecimal,
}

#[derive(Clone, Debug, PartialEq)]
pub struct ContrastAdjustData {
    pub pivot: FixedPointDecimal,
    pub adj: FixedPointDecimal,
}

#[derive(Clone, Debug, PartialEq)]
pub struct ColorAdjustData {
    pub hue: FixedPointDecimal,
    pub sat: FixedPointDecimal,
}

pub type LiftAdjustData = RedGreenBlueLuma;

pub type GammaAdjustData = RedGreenBlueLuma;

pub type GainAdjustData = RedGreenBlueLuma;

pub type OffsetAdjustData = RedGreenBlueLuma;

/// The decode outcome the wire contract prescribes for a color-correction
/// record.
pub open spec fn spec_parse_color_correction(b: Seq<u8>) -> Result<
    ColorCorrectionCommand,
    DecodeFailure,
>
    recommends
        b.len() >= 4,
{
    if b[1] == 0x00 {
        match spec_fpd_quad(b) {
            Ok((operation, red, green, blue, luma)) => Ok(
                ColorCorrectionCommand::LiftAdjust {
                    operation,
                    data: RedGreenBlueLuma { red, green, blue, luma },
                },
            ),
            Err(f) => Err(f),
        }
    } else if b[1] == 0x01 {
        match spec_fpd_quad(b) {
            Ok((operation, red, green, blue, luma)) => Ok(
                ColorCorrectionCommand::GammaAdjust {
                    operation,
                    data: RedGreenBlueLuma { red, green, blue, luma },
                },
            ),
            Err(f) => Err(f),
        }
    } else if b[1] == 0x02 {
        match spec_fpd_quad(b) {
            Ok((operation, red, green, blue, luma)) => Ok(
                ColorCorrectionCommand::GainAdjust {
                    operation,
                    data: RedGreenBlueLuma { red, green, blue, luma },
                },
            ),
            Err(f) => Err(f),
        }
    } else if b[1] == 0x03 {
        match spec_fpd_quad(b) {
            Ok((operation, red, green, blue, luma)) => Ok(
                ColorCorrectionCommand::OffsetAdjust {
                    operation,
                    data: RedGreenBlueLuma { red, green, blue, luma },
                },
            ),
            Err(f) => Err(f),
        }
    } else if b[1] == 0x04 {
        match spec_fpd_pair(b) {
            Ok((operation, pivot, adj)) => Ok(
                ColorCorrectionCommand::ContrastAdjust {
                    operation,
                    data: ContrastAdjustData { pivot, adj },
                },
            ),
            Err(f) => Err(f),
        }
    } else if b[1] == 0x05 {
        match spec_fpd_scalar(b, 0, 2048) {
            Ok((operation, data)) => Ok(ColorCorrectionCommand::LumaMix { operation, data }),
            Err(f) => Err(f),
        }
    } else if b[1] == 0x06 {
        match spec_fpd_pair(b) {
            Ok((operation, hue, sat)) => Ok(
                ColorCorrectionCommand::ColorAdjust {
                    operation,
                    data: ColorAdjustData { hue, sat },
                },
            ),
            Err(f) => Err(f),
        }
    } else if b[1] == 0x07 {
        Ok(ColorCorrectionCommand::CorrectionResetDefault)
    } else {
        Err(DecodeFailure::UnknownParameter)
    }
}

/// Decodes a color-correction record: a flat dispatch over the parameter
/// byte.
pub fn parse_command(command_data: CommandData) -> (r: Result<
    ColorCorrectionCommand,
    EldritchError,
>)
    requires
        command_data.wf(),
    ensures
        result_matches(r, spec_parse_color_correction(command_data.bytes@), command_data.bytes@),
{
    let cmd = &command_data;
    match cmd.parameter() {
        0x00 => match decode_fpdx4(cmd) {
            Ok((operation, red, green, blue, luma)) => Ok(
                ColorCorrectionCommand::LiftAdjust {
                    operation,
                    data: RedGreenBlueLuma { red, green, blue, luma },
                },
            ),
            Err(e) => Err(e),
        },
        0x01 => match decode_fpdx4(cmd) {
            Ok((operation, red, green, blue, luma)) => Ok(
                ColorCorrectionCommand::GammaAdjust {
                    operation,
                    data: RedGreenBlueLuma { red, green, blue, luma },
                },
            ),
            Err(e) => Err(e),
        },
        0x02 => match decode_fpdx4(cmd) {
            Ok((operation, red, green, blue, luma)) => Ok(
                ColorCorrectionCommand::GainAdjust {
                    operation,
                    data: RedGreenBlueLuma { red, green, blue, luma },
                },
            ),
            Err(e) => Err(e),
        },
        0x03 => match decode_fpdx4(cmd) {
            Ok((operation, red, green, blue, luma)) => Ok(
                ColorCorrectionCommand::OffsetAdjust {
                    operation,
                    data: RedGreenBlueLuma { red, green, blue, luma },
                },
            ),
            Err(e) => Err(e),
        },
        0x04 => match decode_fpdx2(cmd) {
            Ok((operation, pivot, adj)) => Ok(
                ColorCorrectionCommand::ContrastAdjust {
                    operation,
                    data: ContrastAdjustData { pivot, adj },
                },
            ),
            Err(e) => Err(e),
        },
        0x05 => match decode_fpd(cmd, 0, 2048) {
            Ok((operation, data)) => Ok(ColorCorrectionCommand::LumaMix { operation, data }),
            Err(e) => Err(e),
        },
        0x06 => match decode_fpdx2(cmd) {
            Ok((operation, hue, sat)) => Ok(
                ColorCorrectionCommand::ColorAdjust {
                    operation,
                    data: ColorAdjustData { hue, sat },
                },
            ),
            Err(e) => Err(e),
        },
        0x07 => Ok(ColorCorrectionCommand::CorrectionResetDefault),
        _ => Err(failure_error(DecodeFailure::UnknownParameter, cmd.bytes)),
    }
}

} // verus!
