//! Little-endian scalar decoding, shared by every command payload shape.
//!
//! The wire protocol stores all multi-byte scalars little-endian and in
//! two's complement.  The spec functions here give each encoding a
//! mathematical meaning over `Seq<u8>`, and the exec functions decode the
//! bytes and are proved to agree with that meaning.

use vstd::prelude::*;

verus! {

/// Unsigned value of a little-endian byte sequence.
pub open spec fn spec_le_unsigned(b: Seq<u8>) -> int
    decreases b.len(),
{
    if b.len() == 0 {
        0
    } else {
        b[0] + 0x100 * spec_le_unsigned(b.drop_first())
    }
}

/// Signed 8-bit value of a single byte, in two's complement.
pub open spec fn spec_i8(b: u8) -> int {
    if b < 0x80 {
        b as int
    } else {
        b - 0x100
    }
}

/// Signed 16-bit value of a 2-byte little-endian sequence.
pub open spec fn spec_i16_le(b: Seq<u8>) -> int
    recommends
        b.len() == 2,
{
    let v = spec_le_unsigned(b);
    if v < 0x8000 {
        v
    } else {
        v - 0x1_0000
    }
}

/// Signed 32-bit value of a 4-byte little-endian sequence.
pub open spec fn spec_i32_le(b: Seq<u8>) -> int
    recommends
        b.len() == 4,
{
    let v = spec_le_unsigned(b);
    if v < 0x8000_0000 {
        v
    } else {
        v - 0x1_0000_0000
    }
}

/// Signed 64-bit value of an 8-byte little-endian sequence.
pub open spec fn spec_i64_le(b: Seq<u8>) -> int
    recommends
        b.len() == 8,
{
    let v = spec_le_unsigned(b);
    if v < 0x8000_0000_0000_0000 {
        v
    } else {
        v - 0x1_0000_0000_0000_0000
    }
}

/// Reads the signed 8-bit scalar stored at `p[off]`.
pub fn read_i8(p: &[u8], off: usize) -> (r: i8)
    requires
        off < p@.len(),
    ensures
        r as int == spec_i8(p@[off as int]),
{
    let b: u8 = p[off];
    if b < 0x80 {
        b as i8
    } else {
        (b as i16 - 0x100) as i8
    }
}

/// Reads the signed 16-bit little-endian scalar stored at `p[off..off + 2]`.
pub fn read_i16(p: &[u8], off: usize) -> (r: i16)
    requires
        off + 2 <= p@.len(),
    ensures
        r as int == spec_i16_le(p@.subrange(off as int, off + 2)),
{
    let v: u32 = p[off] as u32 + 0x100 * (p[off + 1] as u32);
    proof {
        reveal_with_fuel(spec_le_unsigned, 3);
        let s = p@.subrange(off as int, off + 2);
        assert(s.drop_first() =~= seq![p@[off + 1]]);
        assert(s.drop_first().drop_first() =~= Seq::<u8>::empty());
    }
    if v < 0x8000 {
        v as i16
    } else {
        (v as i32 - 0x10000) as i16
    }
}

/// Reads the signed 32-bit little-endian scalar stored at `p[off..off + 4]`.
pub fn read_i32(p: &[u8], off: usize) -> (r: i32)
    requires
        off + 4 <= p@.len(),
    ensures
        r as int == spec_i32_le(p@.subrange(off as int, off + 4)),
{
    let v: u64 = p[off] as u64 + 0x100 * (p[off + 1] as u64) + 0x1_0000 * (p[off + 2] as u64)
        + 0x100_0000 * (p[off + 3] as u64);
    proof {
        reveal_with_fuel(spec_le_unsigned, 5);
        let s = p@.subrange(off as int, off + 4);
        assert(s.drop_first() =~= p@.subrange(off + 1, off + 4));
        assert(s.drop_first().drop_first() =~= p@.subrange(off + 2, off + 4));
        assert(s.drop_first().drop_first().drop_first() =~= seq![p@[off + 3]]);
        assert(s.drop_first().drop_first().drop_first().drop_first() =~= Seq::<u8>::empty());
    }
    if v < 0x8000_0000 {
        v as i32
    } else {
        (v as i64 - 0x1_0000_0000) as i32
    }
}

/// Reads the signed 64-bit little-endian scalar stored at `p[off..off + 8]`.
pub fn read_i64(p: &[u8], off: usize) -> (r: i64)
    requires
        off + 8 <= p@.len(),
    ensures
        r as int == spec_i64_le(p@.subrange(off as int, off + 8)),
{
    let v: u64 = p[off] as u64 + 0x100 * (p[off + 1] as u64) + 0x1_0000 * (p[off + 2] as u64)
        + 0x100_0000 * (p[off + 3] as u64) + 0x1_0000_0000 * (p[off + 4] as u64)
        + 0x100_0000_0000 * (p[off + 5] as u64) + 0x1_0000_0000_0000 * (p[off + 6] as u64)
        + 0x100_0000_0000_0000 * (p[off + 7] as u64);
    proof {
        reveal_with_fuel(spec_le_unsigned, 9);
        let s = p@.subrange(off as int, off + 8);
        assert(s.drop_first() =~= p@.subrange(off + 1, off + 8));
        assert(s.drop_first().drop_first() =~= p@.subrange(off + 2, off + 8));
        assert(s.drop_first().drop_first().drop_first() =~= p@.subrange(off + 3, off + 8));
        assert(s.drop_first().drop_first().drop_first().drop_first() =~= p@.subrange(
            off + 4,
            off + 8,
        ));
        assert(s.drop_first().drop_first().drop_first().drop_first().drop_first() =~= p@.subrange(
            off + 5,
            off + 8,
        ));
        assert(s.drop_first().drop_first().drop_first().drop_first().drop_first().drop_first()
            =~= p@.subrange(off + 6, off + 8));
        assert(s.drop_first().drop_first().drop_first().drop_first().drop_first().drop_first()
            .drop_first() =~= seq![p@[off + 7]]);
        assert(s.drop_first().drop_first().drop_first().drop_first().drop_first().drop_first()
            .drop_first().drop_first() =~= Seq::<u8>::empty());
    }
    if v < 0x8000_0000_0000_0000 {
        v as i64
    } else {
        (v as i128 - 0x1_0000_0000_0000_0000) as i64
    }
}

} // verus!
