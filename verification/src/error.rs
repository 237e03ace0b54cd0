//! The closed set of failures the decoder reports, and the spec-level
//! classification that the contracts use to pin each failure down.

use vstd::prelude::*;
use vstd::string::StringExecFns;

verus! {

/// Every way a frame or a command record can be rejected.
///
/// `InvalidCommandData` carries the full record bytes for diagnostics;
/// `PaddingViolation` carries a message naming the first offending byte.
#[derive(Clone, Debug, PartialEq)]
pub enum EldritchError {
    DataOutOfBounds,
    EndOfPacket,
    InvalidHeader,
    InvalidCommandData { message: String, data: Vec<u8> },
    PacketToLarge,
    PaddingViolation(String),
}

/// Spec-level classification of a record decode failure.  Contracts state
/// which classification an input produces; [`matches_failure`] says which
/// [`EldritchError`] value each classification denotes.
#[derive(Clone, Copy, Debug, PartialEq, Eq, Structural)]
pub enum DecodeFailure {
    /// The record is shorter than the four mandatory command bytes.
    TooShort,
    /// The category byte names no command group.
    UnknownCategory,
    /// The parameter byte names no command in its group.
    UnknownParameter,
    /// The wire `data_type` byte differs from the declared type.
    WrongDataType,
    /// The payload length does not fit the declared payload shape.
    WrongLength,
    /// A boolean command carries a nonzero operation byte.
    BadOperation,
    /// A string payload is not valid UTF-8.
    BadUtf8,
    /// A scalar lies strictly outside its declared inclusive bounds.
    OutOfBounds,
}

pub open spec fn msg_too_short() -> Seq<char> {
    "Package to short"@
}

pub open spec fn msg_unknown_category() -> Seq<char> {
    "No matching command group"@
}

pub open spec fn msg_unknown_parameter() -> Seq<char> {
    "Unknown parameter for command group"@
}

pub open spec fn msg_wrong_data_type() -> Seq<char> {
    "Invalid Data type for command"@
}

pub open spec fn msg_wrong_length() -> Seq<char> {
    "Invalid data length for command"@
}

pub open spec fn msg_bad_operation() -> Seq<char> {
    "Invalid operation for command"@
}

pub open spec fn msg_bad_utf8() -> Seq<char> {
    "Invalid string data for command"@
}

/// The message of each record decode failure.
pub open spec fn failure_message(f: DecodeFailure) -> Seq<char> {
    match f {
        DecodeFailure::TooShort => msg_too_short(),
        DecodeFailure::UnknownCategory => msg_unknown_category(),
        DecodeFailure::UnknownParameter => msg_unknown_parameter(),
        DecodeFailure::WrongDataType => msg_wrong_data_type(),
        DecodeFailure::WrongLength => msg_wrong_length(),
        DecodeFailure::BadOperation => msg_bad_operation(),
        DecodeFailure::BadUtf8 => msg_bad_utf8(),
        DecodeFailure::OutOfBounds => Seq::empty(),
    }
}

/// Holds when `e` is the `InvalidCommandData` error with message `m` that
/// carries the record bytes `record`.
pub open spec fn is_invalid_data(e: EldritchError, m: Seq<char>, record: Seq<u8>) -> bool {
    &&& e matches EldritchError::InvalidCommandData { message, data }
    &&& message@ == m
    &&& data@ == record
}

/// Holds when the error value `e` is the one that the decode failure `f`
/// denotes for a record with bytes `record`.
pub open spec fn matches_failure(e: EldritchError, f: DecodeFailure, record: Seq<u8>) -> bool {
    match f {
        DecodeFailure::OutOfBounds => e == EldritchError::DataOutOfBounds,
        _ => is_invalid_data(e, failure_message(f), record),
    }
}

/// Builds the error value that the decode failure `f` denotes for the
/// record bytes `record`.
pub fn failure_error(f: DecodeFailure, record: &[u8]) -> (e: EldritchError)
    ensures
        matches_failure(e, f, record@),
{
    match f {
        DecodeFailure::OutOfBounds => EldritchError::DataOutOfBounds,
        _ => EldritchError::InvalidCommandData {
            message: failure_text(f),
            data: vstd::slice::slice_to_vec(record),
        },
    }
}

fn failure_text(f: DecodeFailure) -> (m: String)
    ensures
        m@ == failure_message(f),
{
    match f {
        DecodeFailure::TooShort => String::from_str("Package to short"),
        DecodeFailure::UnknownCategory => String::from_str("No matching command group"),
        DecodeFailure::UnknownParameter => String::from_str("Unknown parameter for command group"),
        DecodeFailure::WrongDataType => String::from_str("Invalid Data type for command"),
        DecodeFailure::WrongLength => String::from_str("Invalid data length for command"),
        DecodeFailure::BadOperation => String::from_str("Invalid operation for command"),
        DecodeFailure::BadUtf8 => String::from_str("Invalid string data for command"),
        DecodeFailure::OutOfBounds => String::new(),
    }
}

pub open spec fn msg_padding_length() -> Seq<char> {
    "Padding length is incorrect"@
}

/// The message reporting the first nonzero padding byte, at padding-relative
/// index `idx`.
pub open spec fn padding_byte_msg(idx: nat) -> Seq<char> {
    "Padding byte at index: "@ + dec_digits(idx) + " is not 0x00"@
}

/// The character for the decimal digit `d`.
pub open spec fn digit_char(d: nat) -> char {
    if d == 0 {
        '0'
    } else if d == 1 {
        '1'
    } else if d == 2 {
        '2'
    } else if d == 3 {
        '3'
    } else if d == 4 {
        '4'
    } else if d == 5 {
        '5'
    } else if d == 6 {
        '6'
    } else if d == 7 {
        '7'
    } else if d == 8 {
        '8'
    } else {
        '9'
    }
}

/// Decimal digits of `n`, most significant first, with no leading zero.
pub open spec fn dec_digits(n: nat) -> Seq<char>
    decreases n,
{
    if n < 10 {
        seq![digit_char(n)]
    } else {
        dec_digits(n / 10) + seq![digit_char(n % 10)]
    }
}

fn digit_str(d: usize) -> (s: &'static str)
    requires
        d < 10,
    ensures
        s@ == seq![digit_char(d as nat)],
{
    proof {
        reveal_strlit("0");
        reveal_strlit("1");
        reveal_strlit("2");
        reveal_strlit("3");
        reveal_strlit("4");
        reveal_strlit("5");
        reveal_strlit("6");
        reveal_strlit("7");
        reveal_strlit("8");
        reveal_strlit("9");
    }
    if d == 0 {
        "0"
    } else if d == 1 {
        "1"
    } else if d == 2 {
        "2"
    } else if d == 3 {
        "3"
    } else if d == 4 {
        "4"
    } else if d == 5 {
        "5"
    } else if d == 6 {
        "6"
    } else if d == 7 {
        "7"
    } else if d == 8 {
        "8"
    } else {
        "9"
    }
}

fn dec_string(n: usize) -> (s: String)
    ensures
        s@ == dec_digits(n as nat),
    decreases n,
{
    if n < 10 {
        String::from_str(digit_str(n))
    } else {
        let mut s = dec_string(n / 10);
        s.append(digit_str(n % 10));
        s
    }
}

/// Builds the message reporting a nonzero padding byte at index `idx`.
pub fn padding_byte_message(idx: usize) -> (m: String)
    ensures
        m@ == padding_byte_msg(idx as nat),
{
    let mut m = String::from_str("Padding byte at index: ");
    let digits = dec_string(idx);
    m.append(digits.as_str());
    m.append(" is not 0x00");
    m
}

} // verus!
