//! The per-record decode protocol, shared by every command group.
//!
//! Each command declares a data type, a payload shape (one scalar or a
//! fixed tuple of scalars of one type), and, for single scalars, optional
//! inclusive bounds.  Decoding always follows the same five steps: check
//! the wire `data_type` byte, check the payload length, decode the
//! little-endian scalars, check the bounds, and read the operation byte.
//! The spec functions here state that protocol once per payload shape; the
//! exec functions implement it and are proved against them.

use vstd::prelude::*;

use crate::FixedPointDecimal;
use crate::Operation;
use crate::commands::CommandData;
use crate::error::DecodeFailure;
use crate::error::EldritchError;
use crate::error::failure_error;
use crate::error::matches_failure;
use crate::numeric::read_i8;
use crate::numeric::read_i16;
use crate::numeric::read_i32;
use crate::numeric::read_i64;
use crate::numeric::spec_i8;
use crate::numeric::spec_i16_le;
use crate::numeric::spec_i32_le;
use crate::numeric::spec_i64_le;
use crate::spec_fpd;
use crate::spec_operation;

verus! {

/// Holds when the decode result `r` is the one that the spec-level outcome
/// `s` prescribes for a record with bytes `record`.
pub open spec fn result_matches<T>(
    r: Result<T, EldritchError>,
    s: Result<T, DecodeFailure>,
    record: Seq<u8>,
) -> bool {
    match r {
        Ok(c) => s == Ok::<T, DecodeFailure>(c),
        Err(e) => s matches Err(f) && matches_failure(e, f, record),
    }
}

/// Decode outcome of a boolean command: data type 0x00, a payload of at
/// least one byte, and a zero operation byte; any nonzero operation byte
/// is rejected.
pub open spec fn spec_bool(b: Seq<u8>) -> Result<(Operation, bool), DecodeFailure>
    recommends
        b.len() >= 4,
{
    if b[2] != 0x00 {
        Err(DecodeFailure::WrongDataType)
    } else if b.len() < 5 {
        Err(DecodeFailure::WrongLength)
    } else if b[3] != 0 {
        Err(DecodeFailure::BadOperation)
    } else {
        Ok((Operation::Assign, b[4] != 0))
    }
}

/// Decode outcome of a single signed 8-bit scalar with inclusive bounds.
pub open spec fn spec_i8_scalar(b: Seq<u8>, lo: int, hi: int) -> Result<
    (Operation, i8),
    DecodeFailure,
>
    recommends
        b.len() >= 4,
{
    if b[2] != 0x01 {
        Err(DecodeFailure::WrongDataType)
    } else if b.len() != 5 {
        Err(DecodeFailure::WrongLength)
    } else {
        let v = spec_i8(b[4]);
        if v < lo || hi < v {
            Err(DecodeFailure::OutOfBounds)
        } else {
            Ok((spec_operation(b[3]), v as i8))
        }
    }
}

/// Decode outcome of a single signed 16-bit scalar with inclusive bounds.
pub open spec fn spec_i16_scalar(b: Seq<u8>, lo: int, hi: int) -> Result<
    (Operation, i16),
    DecodeFailure,
>
    recommends
        b.len() >= 4,
{
    if b[2] != 0x02 {
        Err(DecodeFailure::WrongDataType)
    } else if b.len() != 6 {
        Err(DecodeFailure::WrongLength)
    } else {
        let v = spec_i16_le(b.subrange(4, 6));
        if v < lo || hi < v {
            Err(DecodeFailure::OutOfBounds)
        } else {
            Ok((spec_operation(b[3]), v as i16))
        }
    }
}

/// Decode outcome of a single signed 32-bit scalar with inclusive bounds.
pub open spec fn spec_i32_scalar(b: Seq<u8>, lo: int, hi: int) -> Result<
    (Operation, i32),
    DecodeFailure,
>
    recommends
        b.len() >= 4,
{
    if b[2] != 0x03 {
        Err(DecodeFailure::WrongDataType)
    } else if b.len() != 8 {
        Err(DecodeFailure::WrongLength)
    } else {
        let v = spec_i32_le(b.subrange(4, 8));
        if v < lo || hi < v {
            Err(DecodeFailure::OutOfBounds)
        } else {
            Ok((spec_operation(b[3]), v as i32))
        }
    }
}

/// Decode outcome of a single fixed-point scalar with inclusive bounds on
/// the raw value (the real-valued bounds scaled by 2^11).
pub open spec fn spec_fpd_scalar(b: Seq<u8>, lo: int, hi: int) -> Result<
    (Operation, FixedPointDecimal),
    DecodeFailure,
>
    recommends
        b.len() >= 4,
{
    if b[2] != 0x80 {
        Err(DecodeFailure::WrongDataType)
    } else if b.len() != 6 {
        Err(DecodeFailure::WrongLength)
    } else {
        let v = spec_i16_le(b.subrange(4, 6));
        if v < lo || hi < v {
            Err(DecodeFailure::OutOfBounds)
        } else {
            Ok((spec_operation(b[3]), spec_fpd(b.subrange(4, 6))))
        }
    }
}

/// The signed 8-bit scalar at position `k` of the payload.
pub open spec fn spec_i8_at(b: Seq<u8>, k: int) -> int {
    spec_i8(b[4 + k])
}

/// The signed 16-bit scalar at position `k` of the payload.
pub open spec fn spec_i16_at(b: Seq<u8>, k: int) -> int {
    spec_i16_le(b.subrange(4 + 2 * k, 6 + 2 * k))
}

/// The signed 32-bit scalar at position `k` of the payload.
pub open spec fn spec_i32_at(b: Seq<u8>, k: int) -> int {
    spec_i32_le(b.subrange(4 + 4 * k, 8 + 4 * k))
}

/// The signed 64-bit scalar at position `k` of the payload.
pub open spec fn spec_i64_at(b: Seq<u8>, k: int) -> int {
    spec_i64_le(b.subrange(4 + 8 * k, 12 + 8 * k))
}

/// The fixed-point scalar at position `k` of the payload.
pub open spec fn spec_fpd_at(b: Seq<u8>, k: int) -> FixedPointDecimal {
    spec_fpd(b.subrange(4 + 2 * k, 6 + 2 * k))
}

/// Steps one and two of the protocol for a composite payload of `count`
/// scalars of `size` bytes each, declared as data type `dt`: the checks
/// that precede the per-scalar decoding.
pub open spec fn spec_composite_check(b: Seq<u8>, dt: u8, size: int, count: int) -> Option<
    DecodeFailure,
>
    recommends
        b.len() >= 4,
{
    if b[2] != dt {
        Some(DecodeFailure::WrongDataType)
    } else if b.len() != 4 + size * count {
        Some(DecodeFailure::WrongLength)
    } else {
        None
    }
}

impl<'a> CommandData<'a> {
    /// Step one and two of the protocol for a single scalar: the declared
    /// data type must be on the wire, and the payload must hold exactly
    /// the scalar's bytes.  Returns the failure, if any.
    fn scalar_checks(&self, dt: u8, size: usize) -> (r: Option<DecodeFailure>)
        requires
            self.wf(),
            size <= 8,
        ensures
            r == spec_composite_check(self.bytes@, dt, size as int, 1),
    {
        if self.data_type() != dt {
            Some(DecodeFailure::WrongDataType)
        } else if self.bytes.len() != 4 + size {
            Some(DecodeFailure::WrongLength)
        } else {
            None
        }
    }

    fn composite_checks(&self, dt: u8, size: usize, count: usize) -> (r: Option<DecodeFailure>)
        requires
            self.wf(),
            size * count <= 64,
        ensures
            r == spec_composite_check(self.bytes@, dt, size as int, count as int),
    {
        if self.data_type() != dt {
            Some(DecodeFailure::WrongDataType)
        } else if self.bytes.len() != 4 + size * count {
            Some(DecodeFailure::WrongLength)
        } else {
            None
        }
    }
}

/// Decodes a boolean command.
pub fn decode_bool(cmd: &CommandData) -> (r: Result<(Operation, bool), EldritchError>)
    requires
        cmd.wf(),
    ensures
        result_matches(r, spec_bool(cmd.bytes@), cmd.bytes@),
{
    if cmd.data_type() != 0x00 {
        Err(failure_error(DecodeFailure::WrongDataType, cmd.bytes))
    } else if cmd.bytes.len() < 5 {
        Err(failure_error(DecodeFailure::WrongLength, cmd.bytes))
    } else if cmd.operation() != 0 {
        Err(failure_error(DecodeFailure::BadOperation, cmd.bytes))
    } else {
        Ok((Operation::Assign, cmd.bytes[4] != 0))
    }
}

/// Decodes a single signed 8-bit scalar, rejecting values outside
/// `lo..=hi`.
pub fn decode_i8(cmd: &CommandData, lo: i8, hi: i8) -> (r: Result<(Operation, i8), EldritchError>)
    requires
        cmd.wf(),
    ensures
        result_matches(r, spec_i8_scalar(cmd.bytes@, lo as int, hi as int), cmd.bytes@),
{
    match cmd.scalar_checks(0x01, 1) {
        Some(f) => Err(failure_error(f, cmd.bytes)),
        None => {
            let v = read_i8(cmd.bytes, 4);
            if v < lo || hi < v {
                Err(failure_error(DecodeFailure::OutOfBounds, cmd.bytes))
            } else {
                Ok((decode_operation(cmd), v))
            }
        },
    }
}

/// Decodes a single signed 16-bit scalar, rejecting values outside
/// `lo..=hi`.
pub fn decode_i16(cmd: &CommandData, lo: i16, hi: i16) -> (r: Result<
    (Operation, i16),
    EldritchError,
>)
    requires
        cmd.wf(),
    ensures
        result_matches(r, spec_i16_scalar(cmd.bytes@, lo as int, hi as int), cmd.bytes@),
{
    match cmd.scalar_checks(0x02, 2) {
        Some(f) => Err(failure_error(f, cmd.bytes)),
        None => {
            let v = read_i16(cmd.bytes, 4);
            if v < lo || hi < v {
                Err(failure_error(DecodeFailure::OutOfBounds, cmd.bytes))
            } else {
                Ok((decode_operation(cmd), v))
            }
        },
    }
}

/// Decodes a single signed 32-bit scalar, rejecting values outside
/// `lo..=hi`.
pub fn decode_i32(cmd: &CommandData, lo: i32, hi: i32) -> (r: Result<
    (Operation, i32),
    EldritchError,
>)
    requires
        cmd.wf(),
    ensures
        result_matches(r, spec_i32_scalar(cmd.bytes@, lo as int, hi as int), cmd.bytes@),
{
    match cmd.scalar_checks(0x03, 4) {
        Some(f) => Err(failure_error(f, cmd.bytes)),
        None => {
            let v = read_i32(cmd.bytes, 4);
            if v < lo || hi < v {
                Err(failure_error(DecodeFailure::OutOfBounds, cmd.bytes))
            } else {
                Ok((decode_operation(cmd), v))
            }
        },
    }
}

/// Decodes a single fixed-point scalar, rejecting raw values outside
/// `lo..=hi` (the real-valued bounds scaled by 2^11).
pub fn decode_fpd(cmd: &CommandData, lo: i16, hi: i16) -> (r: Result<
    (Operation, FixedPointDecimal),
    EldritchError,
>)
    requires
        cmd.wf(),
    ensures
        result_matches(r, spec_fpd_scalar(cmd.bytes@, lo as int, hi as int), cmd.bytes@),
{
    match cmd.scalar_checks(0x80, 2) {
        Some(f) => Err(failure_error(f, cmd.bytes)),
        None => {
            let v = read_i16(cmd.bytes, 4);
            if v < lo || hi < v {
                Err(failure_error(DecodeFailure::OutOfBounds, cmd.bytes))
            } else {
                Ok((decode_operation(cmd), FixedPointDecimal { raw_val: v }))
            }
        },
    }
}

/// Decode outcome of a pair of signed 8-bit scalars.
pub open spec fn spec_i8_pair(b: Seq<u8>) -> Result<(Operation, i8, i8), DecodeFailure>
    recommends
        b.len() >= 4,
{
    match spec_composite_check(b, 0x01, 1, 2) {
        Some(f) => Err(f),
        None => Ok((spec_operation(b[3]), spec_i8_at(b, 0) as i8, spec_i8_at(b, 1) as i8)),
    }
}

/// Decode outcome of four signed 8-bit scalars.
pub open spec fn spec_i8_quad(b: Seq<u8>) -> Result<(Operation, i8, i8, i8, i8), DecodeFailure>
    recommends
        b.len() >= 4,
{
    match spec_composite_check(b, 0x01, 1, 4) {
        Some(f) => Err(f),
        None => Ok(
            (
                spec_operation(b[3]),
                spec_i8_at(b, 0) as i8,
                spec_i8_at(b, 1) as i8,
                spec_i8_at(b, 2) as i8,
                spec_i8_at(b, 3) as i8,
            ),
        ),
    }
}

/// Decode outcome of five signed 8-bit scalars.
pub open spec fn spec_i8_five(b: Seq<u8>) -> Result<(Operation, i8, i8, i8, i8, i8), DecodeFailure>
    recommends
        b.len() >= 4,
{
    match spec_composite_check(b, 0x01, 1, 5) {
        Some(f) => Err(f),
        None => Ok(
            (
                spec_operation(b[3]),
                spec_i8_at(b, 0) as i8,
                spec_i8_at(b, 1) as i8,
                spec_i8_at(b, 2) as i8,
                spec_i8_at(b, 3) as i8,
                spec_i8_at(b, 4) as i8,
            ),
        ),
    }
}

/// Decode outcome of a pair of signed 16-bit scalars.
pub open spec fn spec_i16_pair(b: Seq<u8>) -> Result<(Operation, i16, i16), DecodeFailure>
    recommends
        b.len() >= 4,
{
    match spec_composite_check(b, 0x02, 2, 2) {
        Some(f) => Err(f),
        None => Ok((spec_operation(b[3]), spec_i16_at(b, 0) as i16, spec_i16_at(b, 1) as i16)),
    }
}

/// Decode outcome of five signed 16-bit scalars.
pub open spec fn spec_i16_five(b: Seq<u8>) -> Result<
    (Operation, i16, i16, i16, i16, i16),
    DecodeFailure,
>
    recommends
        b.len() >= 4,
{
    match spec_composite_check(b, 0x02, 2, 5) {
        Some(f) => Err(f),
        None => Ok(
            (
                spec_operation(b[3]),
                spec_i16_at(b, 0) as i16,
                spec_i16_at(b, 1) as i16,
                spec_i16_at(b, 2) as i16,
                spec_i16_at(b, 3) as i16,
                spec_i16_at(b, 4) as i16,
            ),
        ),
    }
}

/// Decode outcome of a pair of signed 32-bit scalars.
pub open spec fn spec_i32_pair(b: Seq<u8>) -> Result<(Operation, i32, i32), DecodeFailure>
    recommends
        b.len() >= 4,
{
    match spec_composite_check(b, 0x03, 4, 2) {
        Some(f) => Err(f),
        None => Ok((spec_operation(b[3]), spec_i32_at(b, 0) as i32, spec_i32_at(b, 1) as i32)),
    }
}

/// Decode outcome of a single signed 32-bit scalar without declared
/// bounds.
pub open spec fn spec_i32_free(b: Seq<u8>) -> Result<(Operation, i32), DecodeFailure>
    recommends
        b.len() >= 4,
{
    spec_i32_scalar(b, i32::MIN as int, i32::MAX as int)
}

/// Decode outcome of a pair of signed 64-bit scalars.
pub open spec fn spec_i64_pair(b: Seq<u8>) -> Result<(Operation, i64, i64), DecodeFailure>
    recommends
        b.len() >= 4,
{
    match spec_composite_check(b, 0x04, 8, 2) {
        Some(f) => Err(f),
        None => Ok((spec_operation(b[3]), spec_i64_at(b, 0) as i64, spec_i64_at(b, 1) as i64)),
    }
}

/// Decode outcome of a pair of fixed-point scalars.
pub open spec fn spec_fpd_pair(b: Seq<u8>) -> Result<
    (Operation, FixedPointDecimal, FixedPointDecimal),
    DecodeFailure,
>
    recommends
        b.len() >= 4,
{
    match spec_composite_check(b, 0x80, 2, 2) {
        Some(f) => Err(f),
        None => Ok((spec_operation(b[3]), spec_fpd_at(b, 0), spec_fpd_at(b, 1))),
    }
}

/// Decode outcome of four fixed-point scalars.
pub open spec fn spec_fpd_quad(b: Seq<u8>) -> Result<
    (Operation, FixedPointDecimal, FixedPointDecimal, FixedPointDecimal, FixedPointDecimal),
    DecodeFailure,
>
    recommends
        b.len() >= 4,
{
    match spec_composite_check(b, 0x80, 2, 4) {
        Some(f) => Err(f),
        None => Ok(
            (
                spec_operation(b[3]),
                spec_fpd_at(b, 0),
                spec_fpd_at(b, 1),
                spec_fpd_at(b, 2),
                spec_fpd_at(b, 3),
            ),
        ),
    }
}

/// Decodes a pair of signed 8-bit scalars.
pub fn decode_i8x2(cmd: &CommandData) -> (r: Result<(Operation, i8, i8), EldritchError>)
    requires
        cmd.wf(),
    ensures
        result_matches(r, spec_i8_pair(cmd.bytes@), cmd.bytes@),
{
    match cmd.composite_checks(0x01, 1, 2) {
        Some(f) => Err(failure_error(f, cmd.bytes)),
        None => Ok((decode_operation(cmd), read_i8(cmd.bytes, 4), read_i8(cmd.bytes, 5))),
    }
}

/// Decodes four signed 8-bit scalars.
pub fn decode_i8x4(cmd: &CommandData) -> (r: Result<(Operation, i8, i8, i8, i8), EldritchError>)
    requires
        cmd.wf(),
    ensures
        result_matches(r, spec_i8_quad(cmd.bytes@), cmd.bytes@),
{
    match cmd.composite_checks(0x01, 1, 4) {
        Some(f) => Err(failure_error(f, cmd.bytes)),
        None => Ok(
            (
                decode_operation(cmd),
                read_i8(cmd.bytes, 4),
                read_i8(cmd.bytes, 5),
                read_i8(cmd.bytes, 6),
                read_i8(cmd.bytes, 7),
            ),
        ),
    }
}

/// Decodes five signed 8-bit scalars.
pub fn decode_i8x5(cmd: &CommandData) -> (r: Result<
    (Operation, i8, i8, i8, i8, i8),
    EldritchError,
>)
    requires
        cmd.wf(),
    ensures
        result_matches(r, spec_i8_five(cmd.bytes@), cmd.bytes@),
{
    match cmd.composite_checks(0x01, 1, 5) {
        Some(f) => Err(failure_error(f, cmd.bytes)),
        None => Ok(
            (
                decode_operation(cmd),
                read_i8(cmd.bytes, 4),
                read_i8(cmd.bytes, 5),
                read_i8(cmd.bytes, 6),
                read_i8(cmd.bytes, 7),
                read_i8(cmd.bytes, 8),
            ),
        ),
    }
}

/// Decodes a pair of signed 16-bit scalars.
pub fn decode_i16x2(cmd: &CommandData) -> (r: Result<(Operation, i16, i16), EldritchError>)
    requires
        cmd.wf(),
    ensures
        result_matches(r, spec_i16_pair(cmd.bytes@), cmd.bytes@),
{
    match cmd.composite_checks(0x02, 2, 2) {
        Some(f) => Err(failure_error(f, cmd.bytes)),
        None => Ok((decode_operation(cmd), read_i16(cmd.bytes, 4), read_i16(cmd.bytes, 6))),
    }
}

/// Decodes five signed 16-bit scalars.
pub fn decode_i16x5(cmd: &CommandData) -> (r: Result<
    (Operation, i16, i16, i16, i16, i16),
    EldritchError,
>)
    requires
        cmd.wf(),
    ensures
        result_matches(r, spec_i16_five(cmd.bytes@), cmd.bytes@),
{
    match cmd.composite_checks(0x02, 2, 5) {
        Some(f) => Err(failure_error(f, cmd.bytes)),
        None => Ok(
            (
                decode_operation(cmd),
                read_i16(cmd.bytes, 4),
                read_i16(cmd.bytes, 6),
                read_i16(cmd.bytes, 8),
                read_i16(cmd.bytes, 10),
                read_i16(cmd.bytes, 12),
            ),
        ),
    }
}

/// Decodes a pair of signed 32-bit scalars.
pub fn decode_i32x2(cmd: &CommandData) -> (r: Result<(Operation, i32, i32), EldritchError>)
    requires
        cmd.wf(),
    ensures
        result_matches(r, spec_i32_pair(cmd.bytes@), cmd.bytes@),
{
    match cmd.composite_checks(0x03, 4, 2) {
        Some(f) => Err(failure_error(f, cmd.bytes)),
        None => Ok((decode_operation(cmd), read_i32(cmd.bytes, 4), read_i32(cmd.bytes, 8))),
    }
}

/// Decodes a pair of signed 64-bit scalars.
pub fn decode_i64x2(cmd: &CommandData) -> (r: Result<(Operation, i64, i64), EldritchError>)
    requires
        cmd.wf(),
    ensures
        result_matches(r, spec_i64_pair(cmd.bytes@), cmd.bytes@),
{
    match cmd.composite_checks(0x04, 8, 2) {
        Some(f) => Err(failure_error(f, cmd.bytes)),
        None => Ok((decode_operation(cmd), read_i64(cmd.bytes, 4), read_i64(cmd.bytes, 12))),
    }
}

/// Decodes a pair of fixed-point scalars.
pub fn decode_fpdx2(cmd: &CommandData) -> (r: Result<
    (Operation, FixedPointDecimal, FixedPointDecimal),
    EldritchError,
>)
    requires
        cmd.wf(),
    ensures
        result_matches(r, spec_fpd_pair(cmd.bytes@), cmd.bytes@),
{
    match cmd.composite_checks(0x80, 2, 2) {
        Some(f) => Err(failure_error(f, cmd.bytes)),
        None => Ok(
            (
                decode_operation(cmd),
                FixedPointDecimal { raw_val: read_i16(cmd.bytes, 4) },
                FixedPointDecimal { raw_val: read_i16(cmd.bytes, 6) },
            ),
        ),
    }
}

/// Decodes four fixed-point scalars.
pub fn decode_fpdx4(cmd: &CommandData) -> (r: Result<
    (Operation, FixedPointDecimal, FixedPointDecimal, FixedPointDecimal, FixedPointDecimal),
    EldritchError,
>)
    requires
        cmd.wf(),
    ensures
        result_matches(r, spec_fpd_quad(cmd.bytes@), cmd.bytes@),
{
    match cmd.composite_checks(0x80, 2, 4) {
        Some(f) => Err(failure_error(f, cmd.bytes)),
        None => Ok(
            (
                decode_operation(cmd),
                FixedPointDecimal { raw_val: read_i16(cmd.bytes, 4) },
                FixedPointDecimal { raw_val: read_i16(cmd.bytes, 6) },
                FixedPointDecimal { raw_val: read_i16(cmd.bytes, 8) },
                FixedPointDecimal { raw_val: read_i16(cmd.bytes, 10) },
            ),
        ),
    }
}

/// The payload bytes of a record: everything after the four mandatory
/// bytes.
pub open spec fn spec_payload(b: Seq<u8>) -> Seq<u8>
    recommends
        b.len() >= 4,
{
    b.subrange(4, b.len() as int)
}

/// Holds when `r` is the decode result the wire contract prescribes for a
/// string command: data type 0x05, the payload taken whole as UTF-8.
pub open spec fn spec_string_matches(
    b: Seq<u8>,
    r: Result<(Operation, String), EldritchError>,
) -> bool
    recommends
        b.len() >= 4,
{
    if b[2] != 0x05 {
        r matches Err(e) && matches_failure(e, DecodeFailure::WrongDataType, b)
    } else if vstd::utf8::valid_utf8(spec_payload(b)) {
        &&& r matches Ok((op, s))
        &&& op == spec_operation(b[3])
        &&& s@ == vstd::utf8::decode_utf8(spec_payload(b))
    } else {
        r matches Err(e) && matches_failure(e, DecodeFailure::BadUtf8, b)
    }
}

/// Relies on `String::from_utf8`: it succeeds exactly on valid UTF-8 input
/// and returns the string those bytes encode.
#[verifier::external_body]
pub(crate) fn string_from_utf8(bytes: &[u8]) -> (r: Option<String>)
    ensures
        r matches Some(s) ==> vstd::utf8::valid_utf8(bytes@) && s@ == vstd::utf8::decode_utf8(
            bytes@,
        ),
        r is None ==> !vstd::utf8::valid_utf8(bytes@),
{
    match String::from_utf8(bytes.to_vec()) {
        Ok(s) => Some(s),
        Err(_) => None,
    }
}

/// Decodes a string command: the whole payload, taken as UTF-8.
pub fn decode_string(cmd: &CommandData) -> (r: Result<(Operation, String), EldritchError>)
    requires
        cmd.wf(),
    ensures
        spec_string_matches(cmd.bytes@, r),
{
    if cmd.data_type() != 0x05 {
        Err(failure_error(DecodeFailure::WrongDataType, cmd.bytes))
    } else {
        match string_from_utf8(cmd.data_buff()) {
            Some(s) => Ok((decode_operation(cmd), s)),
            None => Err(failure_error(DecodeFailure::BadUtf8, cmd.bytes)),
        }
    }
}

/// A boolean command is decoded only under its declared data type, and
/// any nonzero operation byte on it is rejected.
pub proof fn lemma_bool_protocol(b: Seq<u8>)
    requires
        b.len() >= 4,
    ensures
        b[2] != 0x00 ==> spec_bool(b) == Err::<(Operation, bool), DecodeFailure>(
            DecodeFailure::WrongDataType,
        ),
        b[2] == 0x00 && b.len() >= 5 && b[3] != 0 ==> spec_bool(b) == Err::<
            (Operation, bool),
            DecodeFailure,
        >(DecodeFailure::BadOperation),
        b[2] == 0x00 && b.len() >= 5 && b[3] == 0 ==> spec_bool(b) == Ok::<
            (Operation, bool),
            DecodeFailure,
        >((Operation::Assign, b[4] != 0)),
{
}

/// An 8-bit scalar command is decoded only under its declared data type;
/// a value strictly outside its inclusive bounds is out of bounds, and one
/// on or within either boundary decodes.
pub proof fn lemma_i8_scalar_protocol(b: Seq<u8>, lo: int, hi: int)
    requires
        b.len() == 5,
        b[2] == 0x01,
    ensures
        (spec_i8_scalar(b, lo, hi) == Err::<(Operation, i8), DecodeFailure>(
            DecodeFailure::OutOfBounds,
        )) <==> !(lo <= spec_i8(b[4]) <= hi),
        lo <= spec_i8(b[4]) <= hi ==> spec_i8_scalar(b, lo, hi) == Ok::<
            (Operation, i8),
            DecodeFailure,
        >((spec_operation(b[3]), spec_i8(b[4]) as i8)),
{
}

/// As [`lemma_i8_scalar_protocol`], for 16-bit scalars.
pub proof fn lemma_i16_scalar_protocol(b: Seq<u8>, lo: int, hi: int)
    requires
        b.len() == 6,
        b[2] == 0x02,
    ensures
        (spec_i16_scalar(b, lo, hi) == Err::<(Operation, i16), DecodeFailure>(
            DecodeFailure::OutOfBounds,
        )) <==> !(lo <= spec_i16_le(b.subrange(4, 6)) <= hi),
        lo <= spec_i16_le(b.subrange(4, 6)) <= hi ==> spec_i16_scalar(b, lo, hi) == Ok::<
            (Operation, i16),
            DecodeFailure,
        >((spec_operation(b[3]), spec_i16_le(b.subrange(4, 6)) as i16)),
{
}

/// As [`lemma_i8_scalar_protocol`], for 32-bit scalars.
pub proof fn lemma_i32_scalar_protocol(b: Seq<u8>, lo: int, hi: int)
    requires
        b.len() == 8,
        b[2] == 0x03,
    ensures
        (spec_i32_scalar(b, lo, hi) == Err::<(Operation, i32), DecodeFailure>(
            DecodeFailure::OutOfBounds,
        )) <==> !(lo <= spec_i32_le(b.subrange(4, 8)) <= hi),
        lo <= spec_i32_le(b.subrange(4, 8)) <= hi ==> spec_i32_scalar(b, lo, hi) == Ok::<
            (Operation, i32),
            DecodeFailure,
        >((spec_operation(b[3]), spec_i32_le(b.subrange(4, 8)) as i32)),
{
}

/// As [`lemma_i8_scalar_protocol`], for fixed-point scalars, whose bounds
/// are on the raw value.
pub proof fn lemma_fpd_scalar_protocol(b: Seq<u8>, lo: int, hi: int)
    requires
        b.len() == 6,
        b[2] == 0x80,
    ensures
        (spec_fpd_scalar(b, lo, hi) == Err::<(Operation, FixedPointDecimal), DecodeFailure>(
            DecodeFailure::OutOfBounds,
        )) <==> !(lo <= spec_i16_le(b.subrange(4, 6)) <= hi),
        lo <= spec_i16_le(b.subrange(4, 6)) <= hi ==> spec_fpd_scalar(b, lo, hi) == Ok::<
            (Operation, FixedPointDecimal),
            DecodeFailure,
        >((spec_operation(b[3]), spec_fpd(b.subrange(4, 6)))),
{
}

/// Any command with a declared data type is decoded only when the wire
/// data-type byte equals it: a differing byte fails the first step of the
/// protocol, whatever the rest of the record holds.
pub proof fn lemma_wrong_data_type(b: Seq<u8>, dt: u8, size: int, count: int, lo: int, hi: int)
    requires
        b.len() >= 4,
        b[2] != dt,
    ensures
        spec_composite_check(b, dt, size, count) == Some(DecodeFailure::WrongDataType),
        dt == 0x00 ==> spec_bool(b) == Err::<(Operation, bool), DecodeFailure>(
            DecodeFailure::WrongDataType,
        ),
        dt == 0x01 ==> spec_i8_scalar(b, lo, hi) == Err::<(Operation, i8), DecodeFailure>(
            DecodeFailure::WrongDataType,
        ),
        dt == 0x02 ==> spec_i16_scalar(b, lo, hi) == Err::<(Operation, i16), DecodeFailure>(
            DecodeFailure::WrongDataType,
        ),
        dt == 0x03 ==> spec_i32_scalar(b, lo, hi) == Err::<(Operation, i32), DecodeFailure>(
            DecodeFailure::WrongDataType,
        ),
        dt == 0x80 ==> spec_fpd_scalar(b, lo, hi) == Err::<
            (Operation, FixedPointDecimal),
            DecodeFailure,
        >(DecodeFailure::WrongDataType),
{
}

fn decode_operation(cmd: &CommandData) -> (r: Operation)
    requires
        cmd.wf(),
    ensures
        r == spec_operation(cmd.bytes@[3]),
{
    if cmd.operation() == 0 {
        Operation::Assign
    } else {
        Operation::Increment
    }
}

} // verus!
