//! The register-file companion: a small peripheral that moves frames and
//! tally data between a host and a camera over a byte transport.
//!
//! The decoder never touches this interface; it is driven by callers that
//! receive frames through it.  All register traffic goes through the
//! [`traits::I2cTransport`] trait, of which nothing is assumed, so every
//! response is checked before a byte of it is read.

pub mod errors;
pub mod mock_i2c;
pub mod registers;
pub mod traits;

use vstd::prelude::*;

use crate::commands::protocol::string_from_utf8;
use crate::shield::errors::ShieldError;
use crate::shield::traits::I2cTransport;

verus! {

/// A companion peripheral behind a byte transport.
pub struct EldritchShield<I2C> {
    i2c: I2C,
    address: u8,
}

/// The control bit-field with the control-override bit applied: enabling
/// sets the lowest bit; disabling clears it along with the bits above the
/// defined field.
pub fn control_with_override(byte: u8, enabled: bool) -> (r: u8)
    ensures
        r == (if enabled {
            byte | 0x01u8
        } else {
            byte & 0x0eu8
        }),
{
    if enabled {
        byte | 0x01
    } else {
        byte & 0x0e
    }
}

/// The control bit-field with the tally-override bit applied: enabling
/// sets bit one; disabling clears it along with the bits above the
/// defined field.
pub fn control_with_tally_override(byte: u8, enabled: bool) -> (r: u8)
    ensures
        r == (if enabled {
            byte | 0x02u8
        } else {
            byte & 0x0du8
        }),
{
    if enabled {
        byte | 0x02
    } else {
        byte & 0x0d
    }
}

/// The control bit-field with the write-one-to-trigger reset-tally bit
/// set.
pub fn control_with_reset_tally(byte: u8) -> (r: u8)
    ensures
        r == byte | 0x04u8,
{
    byte | 0x04
}

/// The control bit-field with the output-override bit applied: enabling
/// sets bit three; disabling clears it along with the bits above the
/// defined field.
pub fn control_with_output_override(byte: u8, enabled: bool) -> (r: u8)
    ensures
        r == (if enabled {
            byte | 0x08u8
        } else {
            byte & 0x07u8
        }),
{
    if enabled {
        byte | 0x08
    } else {
        byte & 0x07
    }
}

impl<I2C, E> EldritchShield<I2C> where I2C: I2cTransport<Error = E> {
    /// Wraps a transport, addressing the peripheral at `address`.
    pub fn new(i2c: I2C, address: u8) -> Self {
        Self { i2c, address }
    }

    /// Wraps a transport, addressing the peripheral at its usual bus
    /// address.
    pub fn with_i2c(i2c: I2C) -> Self {
        Self { i2c, address: 0x6e }
    }

    /// Reads the peripheral's identity string.
    pub fn get_identity(&mut self) -> Result<String, ShieldError<E>> {
        let reg = registers::identity();
        let buff = match self.i2c.read(&reg.address, reg.length) {
            Ok(b) => b,
            Err(e) => {
                return Err(ShieldError::Transport(e));
            },
        };
        match string_from_utf8(buff.as_slice()) {
            Some(s) => Ok(s),
            None => Err(ShieldError::InvalidResponse),
        }
    }

    fn read_pair(&mut self, reg: registers::Register) -> Result<(u8, u8), ShieldError<E>> {
        let buff = match self.i2c.read(&reg.address, reg.length) {
            Ok(b) => b,
            Err(e) => {
                return Err(ShieldError::Transport(e));
            },
        };
        if buff.len() < 2 {
            return Err(ShieldError::InvalidResponse);
        }
        Ok((buff[0], buff[1]))
    }

    fn read_byte(&mut self, reg: registers::Register) -> Result<u8, ShieldError<E>> {
        let buff = match self.i2c.read(&reg.address, 1) {
            Ok(b) => b,
            Err(e) => {
                return Err(ShieldError::Transport(e));
            },
        };
        if buff.len() < 1 {
            return Err(ShieldError::InvalidResponse);
        }
        Ok(buff[0])
    }

    /// Reads the hardware version: major then minor.
    pub fn get_hardware_version(&mut self) -> Result<(u8, u8), ShieldError<E>> {
        self.read_pair(registers::hardware_version())
    }

    /// Reads the firmware version: major then minor.
    pub fn get_firmware_version(&mut self) -> Result<(u8, u8), ShieldError<E>> {
        self.read_pair(registers::firmware_version())
    }

    /// Reads the system control bit-field.
    pub fn get_system_control_register(&mut self) -> Result<u8, ShieldError<E>> {
        self.read_byte(registers::control())
    }

    /// Writes the system control bit-field whole.
    pub fn set_system_control_register(&mut self, byte: u8) -> Result<(), ShieldError<E>> {
        let reg = registers::control();
        match self.i2c.write(&reg.address, &[byte]) {
            Ok(_) => Ok(()),
            Err(e) => Err(ShieldError::Transport(e)),
        }
    }

    /// Applies the control-override bit to the control register.
    pub fn set_system_control_override(&mut self, enabled: bool) -> Result<(), ShieldError<E>> {
        let byte = self.read_byte(registers::control())?;
        self.set_system_control_register(control_with_override(byte, enabled))
    }

    /// Applies the tally-override bit to the control register.
    pub fn set_system_tally_override(&mut self, enabled: bool) -> Result<(), ShieldError<E>> {
        let byte = self.read_byte(registers::control())?;
        self.set_system_control_register(control_with_tally_override(byte, enabled))
    }

    /// Triggers a tally reset through the control register.
    pub fn system_reset_tally(&mut self) -> Result<(), ShieldError<E>> {
        let byte = self.read_byte(registers::control())?;
        self.set_system_control_register(control_with_reset_tally(byte))
    }

    /// Applies the output-override bit to the control register.
    pub fn set_system_output_override(&mut self, enabled: bool) -> Result<(), ShieldError<E>> {
        let byte = self.read_byte(registers::control())?;
        self.set_system_control_register(control_with_output_override(byte, enabled))
    }

    fn arm(&mut self, reg: registers::Register) -> Result<(), ShieldError<E>> {
        match self.i2c.write(&reg.address, &[0x01]) {
            Ok(_) => Ok(()),
            Err(e) => Err(ShieldError::Transport(e)),
        }
    }

    fn read_armed(&mut self, reg: registers::Register) -> Result<bool, ShieldError<E>> {
        let byte = self.read_byte(reg)?;
        Ok(byte > 0)
    }

    fn write_length(&mut self, reg: registers::Register, length: u8) -> Result<
        (),
        ShieldError<E>,
    > {
        match self.i2c.write(&reg.address, &[length]) {
            Ok(_) => Ok(()),
            Err(e) => Err(ShieldError::Transport(e)),
        }
    }

    fn write_data(&mut self, reg: registers::Register, data: &[u8]) -> Result<(), ShieldError<E>> {
        match self.i2c.write(&reg.address, data) {
            Ok(_) => Ok(()),
            Err(e) => Err(ShieldError::Transport(e)),
        }
    }

    /// Arms the outgoing control channel.
    pub fn output_control_arm(&mut self) -> Result<(), ShieldError<E>> {
        self.arm(registers::output_control_arm())
    }

    /// Whether the outgoing control channel is armed.
    pub fn is_output_control_armed(&mut self) -> Result<bool, ShieldError<E>> {
        self.read_armed(registers::output_control_arm())
    }

    /// Writes the outgoing control channel's payload length.
    pub fn set_output_control_length(&mut self, length: u8) -> Result<(), ShieldError<E>> {
        self.write_length(registers::output_control_length(), length)
    }

    /// Writes the outgoing control channel's payload.
    pub fn set_output_control_data(&mut self, data: &[u8]) -> Result<(), ShieldError<E>> {
        self.write_data(registers::output_control_data(), data)
    }

    /// Arms the incoming control channel.
    pub fn incoming_control_arm(&mut self) -> Result<(), ShieldError<E>> {
        self.arm(registers::incoming_control_arm())
    }

    /// Whether the incoming control channel is armed.
    pub fn is_incoming_control_armed(&mut self) -> Result<bool, ShieldError<E>> {
        self.read_armed(registers::incoming_control_arm())
    }

    /// Reads the incoming control channel's payload length.
    pub fn get_incoming_control_length(&mut self) -> Result<u8, ShieldError<E>> {
        self.read_byte(registers::incoming_control_length())
    }

    /// Reads the incoming control channel's payload: its length register
    /// says how many bytes to take from its data register.
    pub fn get_incoming_control_data(&mut self) -> Result<Vec<u8>, ShieldError<E>> {
        let len = self.get_incoming_control_length()?;
        let reg = registers::incoming_control_data();
        match self.i2c.read(&reg.address, len as usize) {
            Ok(b) => Ok(b),
            Err(e) => Err(ShieldError::Transport(e)),
        }
    }

    /// Arms the outgoing tally channel.
    pub fn output_tally_arm(&mut self) -> Result<(), ShieldError<E>> {
        self.arm(registers::output_tally_arm())
    }

    /// Whether the outgoing tally channel is armed.
    pub fn output_tally_armed(&mut self) -> Result<bool, ShieldError<E>> {
        self.read_armed(registers::output_tally_arm())
    }

    /// Writes the outgoing tally channel's payload length.
    pub fn set_output_tally_length(&mut self, length: u8) -> Result<(), ShieldError<E>> {
        self.write_length(registers::output_tally_length(), length)
    }

    /// Writes the outgoing tally channel's payload.
    pub fn set_output_tally_data(&mut self, data: &[u8]) -> Result<(), ShieldError<E>> {
        self.write_data(registers::output_tally_data(), data)
    }

    /// Arms the incoming tally channel.
    pub fn incoming_tally_arm(&mut self) -> Result<(), ShieldError<E>> {
        self.arm(registers::incoming_tally_arm())
    }

    /// Whether the incoming tally channel is armed.
    pub fn incoming_tally_armed(&mut self) -> Result<bool, ShieldError<E>> {
        self.read_armed(registers::incoming_tally_arm())
    }

    /// Reads the incoming tally channel's payload length.
    pub fn get_incoming_tally_length(&mut self) -> Result<u8, ShieldError<E>> {
        self.read_byte(registers::incoming_tally_length())
    }

    /// Reads the incoming tally channel's payload: its length register
    /// says how many bytes to take from its data register.
    pub fn get_incoming_tally_data(&mut self) -> Result<Vec<u8>, ShieldError<E>> {
        let len = self.get_incoming_tally_length()?;
        let reg = registers::incoming_tally_data();
        match self.i2c.read(&reg.address, len as usize) {
            Ok(b) => Ok(b),
            Err(e) => Err(ShieldError::Transport(e)),
        }
    }
}

} // verus!
