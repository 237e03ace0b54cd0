//! A transport that simulates the companion's incoming control channel
//! from a queue of canned buffers, for driving the shield in tests.

use vstd::prelude::*;

use crate::shield::traits::I2cTransport;

verus! {

/// A mock transport: reads of the incoming control channel serve one
/// canned buffer after another, and every other register reads as zero.
/// Writes are accepted and ignored.
pub struct MockI2c {
    data_buffers: Vec<Vec<u8>>,
    current_index: usize,
}

/// The 16-bit register number a two-byte little-endian address names.
pub open spec fn spec_reg(addr: Seq<u8>) -> int
    recommends
        addr.len() == 2,
{
    addr[0] + 0x100 * addr[1]
}

impl MockI2c {
    /// The canned buffers, as byte sequences.
    pub closed spec fn buffers(&self) -> Seq<Seq<u8>> {
        self.data_buffers@.map(|i: int, v: Vec<u8>| v@)
    }

    /// How many buffers have been served.
    pub closed spec fn index(&self) -> int {
        self.current_index as int
    }

    /// Wraps a queue of canned buffers, none served yet.
    pub fn new(data_buffers: Vec<Vec<u8>>) -> (r: Self)
        ensures
            r.buffers() == data_buffers@.map(|i: int, v: Vec<u8>| v@),
            r.index() == 0,
    {
        Self { data_buffers, current_index: 0 }
    }

    /// Whether a canned buffer remains to be served.
    fn has_next_buffer(&self) -> (r: bool)
        ensures
            r == (self.index() < self.buffers().len()),
    {
        self.current_index < self.data_buffers.len()
    }

    /// Takes the next canned buffer, if one remains.
    fn next_buffer(&mut self) -> (r: Option<Vec<u8>>)
        ensures
            final(self).buffers() == old(self).buffers(),
            old(self).index() < old(self).buffers().len() ==> (r matches Some(v)
                && v@ == old(self).buffers()[old(self).index()] && final(self).index() == old(self).index() + 1),
            old(self).index() >= old(self).buffers().len() ==> (r is None && final(self).index()
                == old(self).index()),
    {
        if self.current_index < self.data_buffers.len() {
            let buf = self.data_buffers[self.current_index].clone();
            self.current_index = self.current_index + 1;
            Some(buf)
        } else {
            None
        }
    }

    /// Serves a read of `len` bytes from the register at `reg_le`.
    ///
    /// Register 0x3000 reads 0 while a buffer remains and 1 after the
    /// queue is exhausted; 0x3001 reads the next buffer's length; 0x3100
    /// serves the next buffer itself, zero-padded or cut to `len`; every
    /// other register reads as zero.  Only a read of 0x3100 consumes a
    /// buffer.
    pub fn read_from_register(&mut self, reg_le: &[u8; 2], len: usize) -> (r: Vec<u8>)
        ensures
            r@.len() == len,
            final(self).buffers() == old(self).buffers(),
            spec_reg(reg_le@) != 0x3100 ==> final(self).index() == old(self).index(),
            spec_reg(reg_le@) == 0x3000 && len > 0 ==> r@[0] == (if old(self).index() < old(self).buffers().len() {
                0u8
            } else {
                1u8
            }) && (forall|j: int| 1 <= j < len ==> r@[j] == 0),
            spec_reg(reg_le@) == 0x3001 && len > 0 ==> r@[0] == (if old(self).index() < old(self).buffers().len() {
                (old(self).buffers()[old(self).index()].len() % 0x100) as u8
            } else {
                0u8
            }) && (forall|j: int| 1 <= j < len ==> r@[j] == 0),
            spec_reg(reg_le@) == 0x3100 && old(self).index() < old(self).buffers().len() ==> final(self).index() == old(self).index() + 1 && (forall|j: int|
                #![all_triggers]
                0 <= j < len ==> r@[j] == (if j < old(self).buffers()[old(self).index()].len() {
                    old(self).buffers()[old(self).index()][j]
                } else {
                    0u8
                })),
            spec_reg(reg_le@) == 0x3100 && old(self).index() >= old(self).buffers().len() ==> final(self).index() == old(self).index() && (forall|j: int| 0 <= j < len ==> r@[j] == 0),
            spec_reg(reg_le@) != 0x3000 && spec_reg(reg_le@) != 0x3001 && spec_reg(reg_le@)
                != 0x3100 ==> (forall|j: int| 0 <= j < len ==> r@[j] == 0),
    {
        let reg: u32 = reg_le[0] as u32 + 0x100 * (reg_le[1] as u32);
        let mut buffer = zeroed(len);
        if reg == 0x3000 {
            if len > 0 && !self.has_next_buffer() {
                buffer.set(0, 1);
            }
        } else if reg == 0x3001 {
            if self.current_index < self.data_buffers.len() {
                let next_len = self.data_buffers[self.current_index].len();
                if len > 0 {
                    buffer.set(0, (next_len % 0x100) as u8);
                }
            }
        } else if reg == 0x3100 {
            match self.next_buffer() {
                Some(next) => {
                    let mut i: usize = 0;
                    while i < len && i < next.len()
                        invariant
                            i <= len,
                            i <= next@.len(),
                            buffer@.len() == len,
                            next@.len() == next.len(),
                            forall|j: int|
                                #![all_triggers]
                                0 <= j < i ==> buffer@[j] == next@[j],
                            forall|j: int| i <= j < len ==> buffer@[j] == 0,
                        decreases len - i,
                    {
                        buffer.set(i, next[i]);
                        i = i + 1;
                    }
                },
                None => {},
            }
        }
        buffer
    }
}

/// A buffer of `len` zero bytes.
fn zeroed(len: usize) -> (r: Vec<u8>)
    ensures
        r@.len() == len,
        forall|j: int| 0 <= j < len ==> r@[j] == 0,
    decreases len,
{
    let mut v: Vec<u8> = Vec::new();
    let mut i: usize = 0;
    while i < len
        invariant
            i <= len,
            v@.len() == i,
            forall|j: int| 0 <= j < i ==> v@[j] == 0,
        decreases len - i,
    {
        v.push(0);
        i = i + 1;
    }
    v
}

impl I2cTransport for MockI2c {
    type Error = ();

    /// The mock accepts and ignores writes.
    fn write(&mut self, _addr: &[u8; 2], _bytes: &[u8]) -> Result<(), Self::Error> {
        Ok(())
    }

    /// Reads are served from the canned buffers, per
    /// [`MockI2c::read_from_register`].
    fn read(&mut self, addr: &[u8; 2], len: usize) -> Result<Vec<u8>, Self::Error> {
        Ok(self.read_from_register(addr, len))
    }
}

} // verus!
