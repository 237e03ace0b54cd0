//! The transport the register-file companion is driven over.

use vstd::prelude::*;

verus! {

/// A byte transport addressing a 16-bit register file, little-endian on
/// the wire.  Implementations carry the bytes to and from the peripheral;
/// nothing is assumed of what a read returns.
pub trait I2cTransport {
    type Error;

    /// Writes `bytes` to the register at `addr`.
    fn write(&mut self, addr: &[u8; 2], bytes: &[u8]) -> Result<(), Self::Error>;

    /// Reads `len` bytes from the register at `addr`.
    fn read(&mut self, addr: &[u8; 2], len: usize) -> Result<Vec<u8>, Self::Error>;
}

} // verus!
