//! The register map of the companion peripheral.

use vstd::prelude::*;

verus! {

/// One register of the companion: its 16-bit little-endian address and
/// the number of bytes it holds.
pub struct Register {
    pub address: [u8; 2],
    pub length: usize,
}

/// The identity string register at 0x0000.
pub fn identity() -> (r: Register)
    ensures
        r.address@ == seq![0x00u8, 0x00u8],
        r.length == 4,
{
    Register { address: [0x00, 0x00], length: 4 }
}

/// The hardware version register at 0x0004: major then minor.
pub fn hardware_version() -> (r: Register)
    ensures
        r.address@ == seq![0x04u8, 0x00u8],
        r.length == 2,
{
    Register { address: [0x04, 0x00], length: 2 }
}

/// The firmware version register at 0x0006: major then minor.
pub fn firmware_version() -> (r: Register)
    ensures
        r.address@ == seq![0x06u8, 0x00u8],
        r.length == 2,
{
    Register { address: [0x06, 0x00], length: 2 }
}

/// The system control bit-field at 0x1000.
pub fn control() -> (r: Register)
    ensures
        r.address@ == seq![0x00u8, 0x10u8],
        r.length == 1,
{
    Register { address: [0x00, 0x10], length: 1 }
}

/// The outgoing control channel's arm register at 0x2000.
pub fn output_control_arm() -> (r: Register)
    ensures
        r.address@ == seq![0x00u8, 0x20u8],
        r.length == 1,
{
    Register { address: [0x00, 0x20], length: 1 }
}

/// The outgoing control channel's length register at 0x2001.
pub fn output_control_length() -> (r: Register)
    ensures
        r.address@ == seq![0x01u8, 0x20u8],
        r.length == 1,
{
    Register { address: [0x01, 0x20], length: 1 }
}

/// The outgoing control channel's data register at 0x2100.
pub fn output_control_data() -> (r: Register)
    ensures
        r.address@ == seq![0x00u8, 0x21u8],
        r.length == 0xfe,
{
    Register { address: [0x00, 0x21], length: 0xfe }
}

/// The incoming control channel's arm register at 0x3000.
pub fn incoming_control_arm() -> (r: Register)
    ensures
        r.address@ == seq![0x00u8, 0x30u8],
        r.length == 1,
{
    Register { address: [0x00, 0x30], length: 1 }
}

/// The incoming control channel's length register at 0x3001.
pub fn incoming_control_length() -> (r: Register)
    ensures
        r.address@ == seq![0x01u8, 0x30u8],
        r.length == 1,
{
    Register { address: [0x01, 0x30], length: 1 }
}

/// The incoming control channel's data register at 0x3100.
pub fn incoming_control_data() -> (r: Register)
    ensures
        r.address@ == seq![0x00u8, 0x31u8],
        r.length == 0xfe,
{
    Register { address: [0x00, 0x31], length: 0xfe }
}

/// The outgoing tally channel's arm register at 0x4000.
pub fn output_tally_arm() -> (r: Register)
    ensures
        r.address@ == seq![0x00u8, 0x40u8],
        r.length == 1,
{
    Register { address: [0x00, 0x40], length: 1 }
}

/// The outgoing tally channel's length register at 0x4001.
pub fn output_tally_length() -> (r: Register)
    ensures
        r.address@ == seq![0x01u8, 0x40u8],
        r.length == 1,
{
    Register { address: [0x01, 0x40], length: 1 }
}

/// The outgoing tally channel's data register at 0x4100.
pub fn output_tally_data() -> (r: Register)
    ensures
        r.address@ == seq![0x00u8, 0x41u8],
        r.length == 0xfe,
{
    Register { address: [0x00, 0x41], length: 0xfe }
}

/// The incoming tally channel's arm register at 0x5000.
pub fn incoming_tally_arm() -> (r: Register)
    ensures
        r.address@ == seq![0x00u8, 0x50u8],
        r.length == 1,
{
    Register { address: [0x00, 0x50], length: 1 }
}

/// The incoming tally channel's length register at 0x5001.
pub fn incoming_tally_length() -> (r: Register)
    ensures
        r.address@ == seq![0x01u8, 0x50u8],
        r.length == 1,
{
    Register { address: [0x01, 0x50], length: 1 }
}

/// The incoming tally channel's data register at 0x5100.
pub fn incoming_tally_data() -> (r: Register)
    ensures
        r.address@ == seq![0x00u8, 0x51u8],
        r.length == 0xfe,
{
    Register { address: [0x00, 0x51], length: 0xfe }
}

} // verus!
