//! Decoder for the SDI camera-control wire protocol.
//!
//! A transport frame of at most 255 bytes carries a sequence of
//! length-prefixed command records, each padded with zero bytes to a 32-bit
//! boundary.  Every record addresses one device and carries one typed
//! parameter update.  The decoder here is a pure function from bytes to
//! commands: it never panics, and each failure is reported as a distinct
//! [`error::EldritchError`] value.

pub mod commands;
pub mod error;
pub mod numeric;
pub mod shield;

use vstd::prelude::*;
use vstd::string::StringExecFns;

use crate::error::EldritchError;

verus! {

/// Q5.11 signed fixed-point scalar: the real value is `raw_val / 2048`.
///
/// Storage keeps the raw 16-bit value exactly; conversions to floating
/// point are left to callers so that round-trips through the wire encoding
/// lose nothing.
#[derive(Clone, Copy, Debug, PartialEq, Eq, PartialOrd, Structural)]
pub struct FixedPointDecimal {
    pub raw_val: i16,
}

impl FixedPointDecimal {
    /// Decodes a two-byte little-endian scalar, reinterpreting the unsigned
    /// 16-bit value in two's complement.  Construction is total.
    pub fn from_data(data: &[u8; 2]) -> (r: Self)
        ensures
            r.raw_val as int == numeric::spec_i16_le(data@),
            r == spec_fpd(data@),
    {
        let raw = numeric::read_i16(data.as_slice(), 0);
        proof {
            assert(data@.subrange(0, 2) =~= data@);
        }
        Self { raw_val: raw }
    }
}

/// The fixed-point value encoded by a two-byte little-endian sequence.
pub open spec fn spec_fpd(b: Seq<u8>) -> FixedPointDecimal
    recommends
        b.len() == 2,
{
    FixedPointDecimal { raw_val: numeric::spec_i16_le(b) as i16 }
}

/// How a command applies its payload to the targeted parameter.
///
/// On the wire, operation byte 0 means `Assign`; any nonzero byte means
/// `Increment` for numeric data.  A boolean command with a nonzero
/// operation byte is rejected, so `Toggle` is reserved.
#[derive(Clone, Copy, Debug, PartialEq, Eq, Structural)]
pub enum Operation {
    Assign,
    Increment,
    Toggle,
}

/// The operation encoded by a wire operation byte of a numeric command.
pub open spec fn spec_operation(op: u8) -> Operation {
    if op == 0 {
        Operation::Assign
    } else {
        Operation::Increment
    }
}

/// One decoded command together with the device it addresses: the output
/// unit of the frame parser.
#[derive(Clone, Debug, PartialEq)]
pub struct AddressedCommand {
    pub device_id: u8,
    pub command: commands::Command,
}

/// The four bytes at the start of every record.  The reserved fourth byte
/// must be zero and is checked away before this value is built.
#[derive(Clone, Debug, PartialEq)]
pub struct CommandHeader {
    pub device_id: u8,
    pub command_length: u8,
    pub command_id: u8,
}

/// A frame buffer with a read cursor.  The cursor never passes the end of
/// the buffer, and the buffer never exceeds the 255-byte frame limit.
#[derive(Debug, PartialEq)]
pub struct PacketData {
    pub data: Vec<u8>,
    pub cursor: u8,
}

impl PacketData {
    /// The cursor stays inside the buffer, and the buffer respects the
    /// on-wire frame limit.
    pub open spec fn wf(&self) -> bool {
        &&& self.cursor as int <= self.data@.len()
        &&& self.data@.len() <= 255
    }

    /// Wraps a frame buffer, rejecting one longer than 255 bytes.
    pub fn new(packet_data: Vec<u8>) -> (r: Result<Self, EldritchError>)
        ensures
            packet_data@.len() > 255 ==> (r matches Err(e) && e == EldritchError::PacketToLarge),
            packet_data@.len() <= 255 ==> (r matches Ok(p) && p.data@ == packet_data@ && p.cursor
                == 0),
    {
        if packet_data.len() > 255 {
            Err(EldritchError::PacketToLarge)
        } else {
            Ok(Self { data: packet_data, cursor: 0 })
        }
    }

    /// Reads the four header bytes at the cursor.  With all four present
    /// the cursor advances past them whatever the reserved byte holds;
    /// with fewer remaining it stays put.
    pub fn parse_header(&mut self) -> (r: Result<CommandHeader, EldritchError>)
        requires
            old(self).wf(),
        ensures
            final(self).data@ == old(self).data@,
            final(self).wf(),
            old(self).cursor + 4 <= old(self).data@.len() ==> final(self).cursor == old(
                self,
            ).cursor + 4,
            old(self).cursor + 4 > old(self).data@.len() ==> (r matches Err(e) && e
                == EldritchError::InvalidHeader && final(self).cursor == old(self).cursor),
            old(self).cursor + 4 <= old(self).data@.len() && old(self).data@[old(self).cursor + 3]
                == 0 ==> (r matches Ok(h) && h == CommandHeader {
                device_id: old(self).data@[old(self).cursor as int],
                command_length: old(self).data@[old(self).cursor + 1],
                command_id: old(self).data@[old(self).cursor + 2],
            }),
            old(self).cursor + 4 <= old(self).data@.len() && old(self).data@[old(self).cursor + 3]
                != 0 ==> (r matches Err(e) && e == EldritchError::InvalidHeader),
    {
        let c = self.cursor as usize;
        if c + 4 > self.data.len() {
            return Err(EldritchError::InvalidHeader);
        }
        let device_id = self.data[c];
        let command_length = self.data[c + 1];
        let command_id = self.data[c + 2];
        let reserved = self.data[c + 3];
        self.cursor = (c + 4) as u8;
        if reserved == 0 {
            Ok(CommandHeader { device_id, command_length, command_id })
        } else {
            Err(EldritchError::InvalidHeader)
        }
    }

    /// Whether any bytes remain past the cursor.
    pub fn has_data(&self) -> (r: bool)
        ensures
            r == ((self.cursor as int) < self.data@.len()),
    {
        (self.cursor as usize) < self.data.len()
    }

    /// Takes the next `slice_len` bytes, advancing the cursor, or reports
    /// the end of the packet and leaves the cursor where it was.
    pub fn get_slice(&mut self, slice_len: u8) -> (r: Result<Vec<u8>, EldritchError>)
        requires
            old(self).wf(),
        ensures
            final(self).data@ == old(self).data@,
            final(self).wf(),
            old(self).cursor + slice_len <= old(self).data@.len() ==> (r matches Ok(v)
                && v@ == old(self).data@.subrange(
                old(self).cursor as int,
                old(self).cursor + slice_len,
            ) && final(self).cursor == old(self).cursor + slice_len),
            old(self).cursor + slice_len > old(self).data@.len() ==> (r matches Err(e) && e
                == EldritchError::EndOfPacket && final(self).cursor == old(self).cursor),
    {
        let new_cur = self.cursor as usize + slice_len as usize;
        if new_cur > self.data.len() {
            return Err(EldritchError::EndOfPacket);
        }
        let slice_data = vstd::slice::slice_to_vec(
            vstd::slice::slice_subrange(self.data.as_slice(), self.cursor as usize, new_cur),
        );
        self.cursor = new_cur as u8;
        Ok(slice_data)
    }
}

/// The number of zero bytes that pad a body of `command_length` bytes to
/// a 32-bit boundary.
pub open spec fn spec_padding_length(command_length: int) -> int {
    if command_length % 4 == 0 {
        0
    } else {
        4 - command_length % 4
    }
}

/// Computes the padding length for a record body.
pub fn calculate_padding_length(command_length: u8) -> (r: u8)
    ensures
        r as int == spec_padding_length(command_length as int),
        r <= 3,
{
    if command_length % 4 == 0 {
        0
    } else {
        4 - command_length % 4
    }
}

/// Every record's body length plus its padding length reaches a 32-bit
/// boundary, so the decoded records of a frame start on 4-byte offsets.
pub proof fn lemma_padding_aligns(command_length: int)
    requires
        0 <= command_length,
    ensures
        (command_length + spec_padding_length(command_length)) % 4 == 0,
{
}

/// The index of the first nonzero byte, if any.
pub open spec fn first_nonzero(s: Seq<u8>) -> Option<int>
    decreases s.len(),
{
    if s.len() == 0 {
        None
    } else if s[0] != 0 {
        Some(0)
    } else {
        match first_nonzero(s.drop_first()) {
            Some(i) => Some(i + 1),
            None => None,
        }
    }
}

/// The first nonzero byte is found in index order: everything before it is
/// zero, and when none is reported the whole sequence is zero.
pub proof fn lemma_first_nonzero(s: Seq<u8>)
    ensures
        match first_nonzero(s) {
            Some(i) => 0 <= i < s.len() && s[i] != 0 && (forall|j: int| 0 <= j < i ==> s[j] == 0),
            None => forall|j: int| 0 <= j < s.len() ==> s[j] == 0,
        },
    decreases s.len(),
{
    if s.len() > 0 && s[0] == 0 {
        let d = s.drop_first();
        lemma_first_nonzero(d);
        match first_nonzero(d) {
            Some(i) => {
                assert forall|j: int| 0 <= j < i + 1 implies s[j] == 0 by {
                    if j > 0 {
                        assert(d[j - 1] == 0);
                    }
                };
            },
            None => {
                assert forall|j: int| 0 <= j < s.len() implies s[j] == 0 by {
                    if j > 0 {
                        assert(d[j - 1] == 0);
                    }
                };
            },
        }
    }
}

proof fn lemma_first_nonzero_at(s: Seq<u8>, i: int)
    requires
        0 <= i < s.len(),
        s[i] != 0,
        forall|j: int| 0 <= j < i ==> s[j] == 0,
    ensures
        first_nonzero(s) == Some(i),
    decreases s.len(),
{
    if i > 0 {
        lemma_first_nonzero_at(s.drop_first(), i - 1);
    }
}

proof fn lemma_first_nonzero_none(s: Seq<u8>)
    requires
        forall|j: int| 0 <= j < s.len() ==> s[j] == 0,
    ensures
        first_nonzero(s) is None,
    decreases s.len(),
{
    if s.len() > 0 {
        lemma_first_nonzero_none(s.drop_first());
    }
}

/// Holds when `r` is the verdict the wire contract prescribes for a
/// padding slice of a body of `command_length` bytes: the combined length
/// must reach a 32-bit boundary, and every padding byte must be zero, the
/// first offender being the one reported.
pub open spec fn verify_padding_matches(
    padding: Seq<u8>,
    command_length: int,
    r: Result<(), EldritchError>,
) -> bool {
    if (padding.len() + command_length) % 4 != 0 {
        r matches Err(e) && (e matches EldritchError::PaddingViolation(m) && m@
            == error::msg_padding_length())
    } else {
        match first_nonzero(padding) {
            Some(i) => r matches Err(e) && (e matches EldritchError::PaddingViolation(m) && m@
                == error::padding_byte_msg(i as nat)),
            None => r is Ok,
        }
    }
}

/// Checks a record's padding: the body and padding together must reach a
/// 32-bit boundary, and each padding byte must be zero.  The first
/// violation in index order is the one reported.
pub fn verify_padding(padding: &[u8], command_length: u8) -> (r: Result<(), EldritchError>)
    ensures
        verify_padding_matches(padding@, command_length as int, r),
{
    if (padding.len() as u128 + command_length as u128) % 4 > 0 {
        return Err(
            EldritchError::PaddingViolation(String::from_str("Padding length is incorrect")),
        );
    }
    let mut idx: usize = 0;
    while idx < padding.len()
        invariant
            idx <= padding@.len(),
            (padding@.len() + command_length as int) % 4 == 0,
            forall|j: int| 0 <= j < idx ==> padding@[j] == 0,
        decreases padding@.len() - idx,
    {
        if padding[idx] != 0 {
            proof {
                lemma_first_nonzero_at(padding@, idx as int);
            }
            return Err(EldritchError::PaddingViolation(error::padding_byte_message(idx)));
        }
        idx = idx + 1;
    }
    proof {
        lemma_first_nonzero_none(padding@);
    }
    Ok(())
}

/// Spec-level classification of a frame-parse failure.
pub enum FrameFailure {
    /// Fewer than four bytes remain for a header, or its reserved byte is
    /// nonzero.
    BadHeader,
    /// A record body or its padding runs past the end of the frame, in
    /// strict mode.
    Truncated,
    /// These record bytes do not decode to a command.
    BadRecord(Seq<u8>),
    /// A nonzero padding byte at this padding-relative index.
    PadByte(int),
}

/// The records a frame holds from `cursor` on: each a device identifier
/// and the record's command bytes.  Walking stops at the frame's end; a
/// record or padding cut off by it ends the walk cleanly, or is the
/// failure `Truncated` when `strict` is set.
pub open spec fn spec_frame_records(data: Seq<u8>, cursor: int, strict: bool) -> Result<
    Seq<(u8, Seq<u8>)>,
    FrameFailure,
>
    recommends
        0 <= cursor <= data.len(),
    decreases data.len() - cursor,
{
    if cursor >= data.len() {
        Ok(Seq::empty())
    } else if cursor + 4 > data.len() || data[cursor + 3] != 0 {
        Err(FrameFailure::BadHeader)
    } else {
        let clen = data[cursor + 1] as int;
        let body_start = cursor + 4;
        if body_start + clen > data.len() {
            if strict {
                Err(FrameFailure::Truncated)
            } else {
                Ok(Seq::empty())
            }
        } else {
            let rec = data.subrange(body_start, body_start + clen);
            if !commands::spec_record_ok(rec) {
                Err(FrameFailure::BadRecord(rec))
            } else {
                let pad_start = body_start + clen;
                let pad = spec_padding_length(clen);
                if pad_start + pad > data.len() {
                    if strict {
                        Err(FrameFailure::Truncated)
                    } else {
                        Ok(seq![(data[cursor], rec)])
                    }
                } else {
                    match first_nonzero(data.subrange(pad_start, pad_start + pad)) {
                        Some(i) => Err(FrameFailure::PadByte(i)),
                        None => match spec_frame_records(data, pad_start + pad, strict) {
                            Ok(rest) => Ok(seq![(data[cursor], rec)] + rest),
                            Err(f) => Err(f),
                        },
                    }
                }
            }
        }
    }
}

/// Holds when the error value `e` is the one that the frame failure `f`
/// denotes.
pub open spec fn frame_failure_matches(e: EldritchError, f: FrameFailure) -> bool {
    match f {
        FrameFailure::BadHeader => e == EldritchError::InvalidHeader,
        FrameFailure::Truncated => e == EldritchError::EndOfPacket,
        FrameFailure::BadRecord(rec) => commands::parse_command_matches(rec, Err(e)),
        FrameFailure::PadByte(i) => e matches EldritchError::PaddingViolation(m) && m@
            == error::padding_byte_msg(i as nat),
    }
}

/// Holds when `c` is the decoded form of the framed record `rec`.
pub open spec fn record_decodes_to(rec: (u8, Seq<u8>), c: AddressedCommand) -> bool {
    &&& c.device_id == rec.0
    &&& commands::parse_command_matches(rec.1, Ok(c.command))
}

/// Holds when `cmds` decodes the framed records `recs`, one for one and
/// in order.
pub open spec fn records_decode_to(recs: Seq<(u8, Seq<u8>)>, cmds: Seq<AddressedCommand>) -> bool {
    &&& cmds.len() == recs.len()
    &&& forall|i: int| 0 <= i < recs.len() ==> #[trigger] record_decodes_to(recs[i], cmds[i])
}

/// As [`records_decode_to`], with the device identifiers dropped.
pub open spec fn records_decode_to_commands(
    recs: Seq<(u8, Seq<u8>)>,
    cmds: Seq<commands::Command>,
) -> bool {
    &&& cmds.len() == recs.len()
    &&& forall|i: int|
        0 <= i < recs.len() ==> commands::parse_command_matches(recs[i].1, Ok(#[trigger] cmds[i]))
}

/// Holds when `r` is the outcome the wire contract prescribes for the
/// tolerant frame parser on the buffer `data`.
pub open spec fn frame_parse_matches(
    data: Seq<u8>,
    r: Result<Vec<AddressedCommand>, EldritchError>,
) -> bool {
    if data.len() > 255 {
        r matches Err(e) && e == EldritchError::PacketToLarge
    } else {
        match spec_frame_records(data, 0, false) {
            Ok(recs) => r matches Ok(cmds) && records_decode_to(recs, cmds@),
            Err(f) => r matches Err(e) && frame_failure_matches(e, f),
        }
    }
}

/// Holds when `r` is the outcome the wire contract prescribes for the
/// strict frame parser on the buffer `data`.
pub open spec fn packet_parse_matches(
    data: Seq<u8>,
    r: Result<Vec<commands::Command>, EldritchError>,
) -> bool {
    if data.len() > 255 {
        r matches Err(e) && e == EldritchError::PacketToLarge
    } else {
        match spec_frame_records(data, 0, true) {
            Ok(recs) => r matches Ok(cmds) && records_decode_to_commands(recs, cmds@),
            Err(f) => r matches Err(e) && frame_failure_matches(e, f),
        }
    }
}

/// A header whose reserved byte is nonzero fails the frame parse, in
/// either mode.
pub proof fn lemma_reserved_byte_rejected(data: Seq<u8>, cursor: int, strict: bool)
    requires
        0 <= cursor,
        cursor + 4 <= data.len(),
        data[cursor + 3] != 0,
    ensures
        spec_frame_records(data, cursor, strict) == Err::<Seq<(u8, Seq<u8>)>, FrameFailure>(
            FrameFailure::BadHeader,
        ),
{
}

/// A record body that the frame's end cuts short is the failure
/// `Truncated` in strict mode, and ends the walk cleanly in tolerant
/// mode.
pub proof fn lemma_truncated_body(data: Seq<u8>, cursor: int)
    requires
        0 <= cursor,
        cursor + 4 <= data.len(),
        data[cursor + 3] == 0,
        cursor + 4 + data[cursor + 1] > data.len(),
    ensures
        spec_frame_records(data, cursor, true) == Err::<Seq<(u8, Seq<u8>)>, FrameFailure>(
            FrameFailure::Truncated,
        ),
        spec_frame_records(data, cursor, false) == Ok::<Seq<(u8, Seq<u8>)>, FrameFailure>(
            Seq::empty(),
        ),
{
}

/// Prefixes already-walked records onto the outcome of the rest of the
/// walk.
spec fn frame_combine(
    pre: Seq<(u8, Seq<u8>)>,
    rest: Result<Seq<(u8, Seq<u8>)>, FrameFailure>,
) -> Result<Seq<(u8, Seq<u8>)>, FrameFailure> {
    match rest {
        Ok(s) => Ok(pre + s),
        Err(f) => Err(f),
    }
}

/// Parses a whole frame tolerantly: walks its records, decoding each and
/// checking its padding, and returns the commands decoded before the
/// frame's end cut a trailing record short.
#[verifier::loop_isolation(false)]
#[verifier::rlimit(60)]
pub fn parse_frame_packet(data: Vec<u8>) -> (r: Result<Vec<AddressedCommand>, EldritchError>)
    ensures
        frame_parse_matches(data@, r),
{
    let ghost d: Seq<u8> = data@;
    let mut packet = match PacketData::new(data) {
        Ok(p) => p,
        Err(e) => {
            return Err(e);
        },
    };
    let mut commands: Vec<AddressedCommand> = Vec::new();
    let ghost mut done: Seq<(u8, Seq<u8>)> = Seq::empty();
    proof {
        match spec_frame_records(d, 0, false) {
            Ok(s) => {
                assert(done + s =~= s);
            },
            Err(_) => {},
        }
    }
    while packet.has_data()
        invariant
            packet.wf(),
            packet.data@ == d,
            records_decode_to(done, commands@),
            frame_combine(done, spec_frame_records(d, packet.cursor as int, false))
                == spec_frame_records(d, 0, false),
        decreases d.len() - packet.cursor,
    {
        let ghost cur0: int = packet.cursor as int;
        let ghost done0: Seq<(u8, Seq<u8>)> = done;
        let header = match packet.parse_header() {
            Ok(h) => h,
            Err(e) => {
                proof {
                    assert(spec_frame_records(d, cur0, false) == Err::<
                        Seq<(u8, Seq<u8>)>,
                        FrameFailure,
                    >(FrameFailure::BadHeader));
                }
                return Err(e);
            },
        };
        let ghost clen: int = header.command_length as int;
        let body = match packet.get_slice(header.command_length) {
            Ok(v) => v,
            Err(_) => {
                proof {
                    assert(spec_frame_records(d, cur0, false) == Ok::<_, FrameFailure>(
                        Seq::<(u8, Seq<u8>)>::empty(),
                    ));
                    assert(done + Seq::<(u8, Seq<u8>)>::empty() =~= done);
                }
                return Ok(commands);
            },
        };
        let ghost rec: Seq<u8> = d.subrange(cur0 + 4, cur0 + 4 + clen);
        let command = match commands::parse_command(body.as_slice()) {
            Ok(c) => c,
            Err(e) => {
                proof {
                    commands::lemma_parse_command_ok(rec, Err(e));
                    assert(spec_frame_records(d, cur0, false) == Err::<
                        Seq<(u8, Seq<u8>)>,
                        FrameFailure,
                    >(FrameFailure::BadRecord(rec)));
                }
                return Err(e);
            },
        };
        proof {
            commands::lemma_parse_command_ok(rec, Ok(command));
        }
        let ghost pair: (u8, Seq<u8>) = (d[cur0], rec);
        commands.push(AddressedCommand { device_id: header.device_id, command });
        proof {
            assert forall|i: int| 0 <= i < done0.push(pair).len() implies #[trigger] record_decodes_to(
                done0.push(pair)[i],
                commands@[i],
            ) by {
                if i < done0.len() {
                    assert(record_decodes_to(done0[i], commands@[i]));
                }
            };
        }
        let pad_len = calculate_padding_length(header.command_length);
        let padding = match packet.get_slice(pad_len) {
            Ok(v) => v,
            Err(_) => {
                proof {
                    assert(spec_frame_records(d, cur0, false) == Ok::<_, FrameFailure>(seq![pair]));
                    assert(done0 + seq![pair] =~= done0.push(pair));
                }
                return Ok(commands);
            },
        };
        let ghost pad_seq: Seq<u8> = d.subrange(cur0 + 4 + clen, cur0 + 4 + clen
            + spec_padding_length(clen));
        match verify_padding(padding.as_slice(), header.command_length) {
            Ok(_) => {},
            Err(e) => {
                proof {
                    assert((pad_seq.len() + clen) % 4 == 0);
                    assert(first_nonzero(pad_seq) matches Some(i) && frame_failure_matches(
                        e,
                        FrameFailure::PadByte(i),
                    ));
                    assert(spec_frame_records(d, cur0, false) matches Err(f)
                        && frame_failure_matches(e, f));
                }
                return Err(e);
            },
        }
        proof {
            done = done0.push(pair);
            let next = cur0 + 4 + clen + spec_padding_length(clen);
            assert(first_nonzero(pad_seq) is None);
            match spec_frame_records(d, next, false) {
                Ok(rest) => {
                    assert(spec_frame_records(d, cur0, false) == Ok::<_, FrameFailure>(
                        seq![pair] + rest,
                    ));
                    assert(done0 + (seq![pair] + rest) =~= (done0 + seq![pair]) + rest);
                    assert(done0 + seq![pair] =~= done);
                },
                Err(_) => {},
            }
        }
    }
    proof {
        assert(packet.cursor as int == d.len());
        assert(spec_frame_records(d, packet.cursor as int, false) == Ok::<_, FrameFailure>(
            Seq::<(u8, Seq<u8>)>::empty(),
        ));
        assert(done + Seq::<(u8, Seq<u8>)>::empty() =~= done);
    }
    Ok(commands)
}

/// Parses a whole frame strictly: as [`parse_frame_packet`], but a record
/// body or padding cut short by the frame's end is the error
/// `EndOfPacket`, and the device identifiers are dropped.
#[verifier::loop_isolation(false)]
#[verifier::rlimit(60)]
pub fn parse_packet(data: Vec<u8>) -> (r: Result<Vec<commands::Command>, EldritchError>)
    ensures
        packet_parse_matches(data@, r),
{
    let ghost d: Seq<u8> = data@;
    let mut packet = match PacketData::new(data) {
        Ok(p) => p,
        Err(e) => {
            return Err(e);
        },
    };
    let mut commands: Vec<commands::Command> = Vec::new();
    let ghost mut done: Seq<(u8, Seq<u8>)> = Seq::empty();
    proof {
        match spec_frame_records(d, 0, true) {
            Ok(s) => {
                assert(done + s =~= s);
            },
            Err(_) => {},
        }
    }
    while packet.has_data()
        invariant
            packet.wf(),
            packet.data@ == d,
            records_decode_to_commands(done, commands@),
            frame_combine(done, spec_frame_records(d, packet.cursor as int, true))
                == spec_frame_records(d, 0, true),
        decreases d.len() - packet.cursor,
    {
        let ghost cur0: int = packet.cursor as int;
        let ghost done0: Seq<(u8, Seq<u8>)> = done;
        let header = match packet.parse_header() {
            Ok(h) => h,
            Err(e) => {
                proof {
                    assert(spec_frame_records(d, cur0, true) == Err::<
                        Seq<(u8, Seq<u8>)>,
                        FrameFailure,
                    >(FrameFailure::BadHeader));
                }
                return Err(e);
            },
        };
        let ghost clen: int = header.command_length as int;
        let body = match packet.get_slice(header.command_length) {
            Ok(v) => v,
            Err(e) => {
                proof {
                    assert(spec_frame_records(d, cur0, true) == Err::<
                        Seq<(u8, Seq<u8>)>,
                        FrameFailure,
                    >(FrameFailure::Truncated));
                }
                return Err(e);
            },
        };
        let ghost rec: Seq<u8> = d.subrange(cur0 + 4, cur0 + 4 + clen);
        let command = match commands::parse_command(body.as_slice()) {
            Ok(c) => c,
            Err(e) => {
                proof {
                    commands::lemma_parse_command_ok(rec, Err(e));
                    assert(spec_frame_records(d, cur0, true) == Err::<
                        Seq<(u8, Seq<u8>)>,
                        FrameFailure,
                    >(FrameFailure::BadRecord(rec)));
                }
                return Err(e);
            },
        };
        proof {
            commands::lemma_parse_command_ok(rec, Ok(command));
        }
        let ghost pair: (u8, Seq<u8>) = (d[cur0], rec);
        commands.push(command);
        proof {
            assert(forall|i: int|
                0 <= i < done0.len() ==> commands::parse_command_matches(
                    done0[i].1,
                    Ok(#[trigger] commands@[i]),
                ));
        }
        let pad_len = calculate_padding_length(header.command_length);
        let padding = match packet.get_slice(pad_len) {
            Ok(v) => v,
            Err(e) => {
                proof {
                    assert(spec_frame_records(d, cur0, true) == Err::<
                        Seq<(u8, Seq<u8>)>,
                        FrameFailure,
                    >(FrameFailure::Truncated));
                }
                return Err(e);
            },
        };
        let ghost pad_seq: Seq<u8> = d.subrange(cur0 + 4 + clen, cur0 + 4 + clen
            + spec_padding_length(clen));
        match verify_padding(padding.as_slice(), header.command_length) {
            Ok(_) => {},
            Err(e) => {
                proof {
                    assert((pad_seq.len() + clen) % 4 == 0);
                    assert(first_nonzero(pad_seq) matches Some(i) && frame_failure_matches(
                        e,
                        FrameFailure::PadByte(i),
                    ));
                    assert(spec_frame_records(d, cur0, true) matches Err(f)
                        && frame_failure_matches(e, f));
                }
                return Err(e);
            },
        }
        proof {
            done = done0.push(pair);
            let next = cur0 + 4 + clen + spec_padding_length(clen);
            assert(first_nonzero(pad_seq) is None);
            match spec_frame_records(d, next, true) {
                Ok(rest) => {
                    assert(spec_frame_records(d, cur0, true) == Ok::<_, FrameFailure>(
                        seq![pair] + rest,
                    ));
                    assert(done0 + (seq![pair] + rest) =~= (done0 + seq![pair]) + rest);
                    assert(done0 + seq![pair] =~= done);
                },
                Err(_) => {},
            }
        }
    }
    proof {
        assert(packet.cursor as int == d.len());
        assert(spec_frame_records(d, packet.cursor as int, true) == Ok::<_, FrameFailure>(
            Seq::<(u8, Seq<u8>)>::empty(),
        ));
        assert(done + Seq::<(u8, Seq<u8>)>::empty() =~= done);
    }
    Ok(commands)
}

} // verus!
