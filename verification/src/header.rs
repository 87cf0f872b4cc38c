//! The common header that precedes every record.
//!
//! On the wire the header is twelve bytes, all fields big-endian: a 32-bit
//! timestamp, a 16-bit type code, a 16-bit subtype and a 32-bit length.  For
//! the extended-timestamp type a 32-bit microsecond timestamp follows the
//! length, and the length field counts those four bytes although they belong
//! to the header.

use crate::entry_type::{entry_type_of, lemma_type_code_round_trip, EntryType};
use crate::error::{ErrorModel, ParserError};
use crate::source::{
    lemma_advance_past_end, lemma_advance_twice, lemma_advance_zero, ByteSource, Stream,
};
use crate::text::{decimal, with_decimal};
use crate::wire::{
    be_u16, be_u32, lemma_be_u16_round_trip, lemma_be_u32_round_trip, u16_be_bytes, u32_be_bytes,
};
use vstd::prelude::*;

verus! {

/// The decoded common header of a record.
#[derive(Debug, Copy, Clone, PartialEq, Eq, Structural)]
pub struct CommonHeader {
    /// Seconds since the epoch.
    pub timestamp: u32,
    /// The microsecond part of the timestamp, for the extended header only.
    pub microsecond_timestamp: Option<u32>,
    /// The type of the record.
    pub entry_type: EntryType,
    /// The subtype, whose meaning depends on the type.
    pub entry_subtype: u16,
    /// The number of payload bytes that follow the header.
    pub length: u32,
}

impl CommonHeader {
    /// The header is one that decoding can produce: the microsecond timestamp
    /// is present exactly for the extended-timestamp type, and for that type
    /// the payload length leaves room for the four bytes that the length field
    /// adds on the wire.
    pub open spec fn wf(self) -> bool {
        &&& self.microsecond_timestamp is Some <==> self.entry_type.is_extended()
        &&& self.entry_type.is_extended() ==> self.length + 4 <= u32::MAX
    }

    /// The value of the length field on the wire.
    pub open spec fn wire_length(self) -> u32
        recommends
            self.wf(),
    {
        if self.entry_type.is_extended() {
            (self.length + 4) as u32
        } else {
            self.length
        }
    }

    /// The bytes that encode the header on the wire.
    pub open spec fn wire_bytes(self) -> Seq<u8>
        recommends
            self.wf(),
    {
        u32_be_bytes(self.timestamp) + u16_be_bytes(self.entry_type.wire_code()) + u16_be_bytes(
            self.entry_subtype,
        ) + u32_be_bytes(self.wire_length()) + match self.microsecond_timestamp {
            Some(microseconds) => u32_be_bytes(microseconds),
            None => Seq::empty(),
        }
    }
}

/// The message of the error for a type code that stands for no type.
pub open spec fn unknown_type_text(code: u16) -> Seq<char> {
    "Failed to parse entry type: "@ + decimal(code as nat)
}

/// The message of the error for an extended header whose length field is too
/// small to count the microsecond timestamp.
pub open spec fn short_length_text(wire_length: u32) -> Seq<char> {
    "Invalid length for extended timestamp header: "@ + decimal(wire_length as nat)
}

/// The error for input that ends inside a header whose bytes so far are
/// `pending`: the transport fault if the source has one, and otherwise a
/// truncation that owns those bytes.
pub open spec fn cut_short(s: Stream) -> ErrorModel {
    s.shortfall().with_evidence(s.pending)
}

/// What decoding a header yields from a source in state `s`.
///
/// The fields are taken in wire order, and each is judged as soon as it is
/// complete: a type code that stands for no type is reported once six bytes
/// are there, whatever follows.
pub open spec fn header_outcome(s: Stream) -> Result<CommonHeader, ErrorModel> {
    let bytes = s.pending;
    if s.at_clean_end() {
        Err(ErrorModel::EofExpected)
    } else if bytes.len() < 6 {
        Err(cut_short(s))
    } else {
        let code = be_u16(bytes.skip(4));
        match entry_type_of(code) {
            None => Err(ErrorModel::ParseError(unknown_type_text(code))),
            Some(entry_type) => {
                let wire_length = be_u32(bytes.skip(8));
                if bytes.len() < 12 {
                    Err(cut_short(s))
                } else if !entry_type.is_extended() {
                    Ok(
                        CommonHeader {
                            timestamp: be_u32(bytes),
                            microsecond_timestamp: None,
                            entry_type,
                            entry_subtype: be_u16(bytes.skip(6)),
                            length: wire_length,
                        },
                    )
                } else if wire_length < 4 {
                    Err(ErrorModel::ParseError(short_length_text(wire_length)))
                } else if bytes.len() < 16 {
                    Err(cut_short(s))
                } else {
                    Ok(
                        CommonHeader {
                            timestamp: be_u32(bytes),
                            microsecond_timestamp: Some(be_u32(bytes.skip(12))),
                            entry_type,
                            entry_subtype: be_u16(bytes.skip(6)),
                            length: (wire_length - 4) as u32,
                        },
                    )
                }
            },
        }
    }
}

/// The number of bytes that decoding a header takes from a source whose
/// pending bytes are `bytes`: twelve for a standard header, sixteen for an
/// extended one, the bytes up to and including a rejected field, and
/// everything where the input ends inside the header.
pub open spec fn header_extent(bytes: Seq<u8>) -> nat {
    if bytes.len() < 6 {
        bytes.len()
    } else {
        match entry_type_of(be_u16(bytes.skip(4))) {
            None => 6,
            Some(entry_type) => {
                if bytes.len() < 12 {
                    bytes.len()
                } else if !entry_type.is_extended() {
                    12
                } else if be_u32(bytes.skip(8)) < 4 {
                    12
                } else if bytes.len() < 16 {
                    bytes.len()
                } else {
                    16
                }
            },
        }
    }
}

/// Decoding recovers an encoded header.
///
/// For every well-formed header, a source whose pending bytes begin with the
/// header's wire encoding decodes to that header and gives up exactly the
/// bytes of the encoding, whatever follows them and however the input ends.
pub proof fn lemma_header_round_trip(header: CommonHeader, s: Stream, rest: Seq<u8>)
    requires
        header.wf(),
        s.pending == header.wire_bytes() + rest,
    ensures
        header_outcome(s) == Ok::<CommonHeader, ErrorModel>(header),
        header_extent(s.pending) == header.wire_bytes().len(),
        s.advance(header_extent(s.pending)).pending == rest,
        s.advance(header_extent(s.pending)).consumed == s.consumed + header.wire_bytes(),
{
    let bytes = s.pending;
    let timestamp = u32_be_bytes(header.timestamp);
    let code = u16_be_bytes(header.entry_type.wire_code());
    let subtype = u16_be_bytes(header.entry_subtype);
    let length = u32_be_bytes(header.wire_length());
    let tail = match header.microsecond_timestamp {
        Some(microseconds) => u32_be_bytes(microseconds),
        None => Seq::empty(),
    };
    lemma_be_u32_round_trip(header.timestamp, code + subtype + length + tail + rest);
    assert(bytes =~= timestamp + (code + subtype + length + tail + rest));
    lemma_be_u16_round_trip(header.entry_type.wire_code(), subtype + length + tail + rest);
    assert(bytes.skip(4) =~= code + (subtype + length + tail + rest));
    lemma_be_u16_round_trip(header.entry_subtype, length + tail + rest);
    assert(bytes.skip(6) =~= subtype + (length + tail + rest));
    lemma_be_u32_round_trip(header.wire_length(), tail + rest);
    assert(bytes.skip(8) =~= length + (tail + rest));
    lemma_type_code_round_trip(header.entry_type, header.entry_type.wire_code());
    match header.microsecond_timestamp {
        Some(microseconds) => {
            lemma_be_u32_round_trip(microseconds, rest);
            assert(bytes.skip(12) =~= tail + rest);
            assert(bytes.skip(16) =~= rest);
            assert(bytes.take(16) =~= header.wire_bytes());
        },
        None => {
            assert(bytes.skip(12) =~= rest);
            assert(bytes.take(12) =~= header.wire_bytes());
        },
    }
}

/// What a header that was decoded, or the failure to decode one, tells about
/// the bytes that were pending.
///
/// A header that was decoded is well formed and has taken its twelve or
/// sixteen bytes and no more.  A standard header gives the length field as it
/// is on the wire and no microsecond timestamp; an extended header gives the
/// length field less four, and the microsecond timestamp.  A clean end is
/// reported exactly at a clean end.  Input that ends inside the first twelve
/// bytes never gives a header: it gives a truncation or the transport fault,
/// unless the type code is complete and stands for no type.  A truncation owns
/// the bytes that were there, and a transport fault keeps its description.
pub open spec fn header_facts(s: Stream, outcome: Result<CommonHeader, ErrorModel>) -> bool {
    let bytes = s.pending;
    &&& outcome matches Ok(header) ==> {
        &&& header.wf()
        &&& header.wire_bytes().len() <= bytes.len()
        &&& header_extent(bytes) == header.wire_bytes().len()
        &&& header.wire_bytes().len() == if header.entry_type.is_extended() {
            16nat
        } else {
            12nat
        }
        &&& header.timestamp == be_u32(bytes)
        &&& entry_type_of(be_u16(bytes.skip(4))) == Some(header.entry_type)
        &&& header.entry_subtype == be_u16(bytes.skip(6))
        &&& header.wire_length() == be_u32(bytes.skip(8))
        &&& !header.entry_type.is_extended() ==> {
            &&& header.length == be_u32(bytes.skip(8))
            &&& header.microsecond_timestamp is None
        }
        &&& header.entry_type.is_extended() ==> {
            &&& header.length == be_u32(bytes.skip(8)) - 4
            &&& header.microsecond_timestamp == Some(be_u32(bytes.skip(12)))
        }
    }
    &&& outcome == Err::<CommonHeader, ErrorModel>(ErrorModel::EofExpected)
        <==> s.at_clean_end()
    &&& bytes.len() < 12 ==> outcome is Err
    &&& 0 < bytes.len() < 12 ==> (outcome matches Err(e) && {
        ||| e is EofError
        ||| e is IoError
        ||| e is ParseError && bytes.len() >= 6 && entry_type_of(be_u16(bytes.skip(4))) is None
    })
    &&& outcome matches Err(ErrorModel::EofError(evidence)) ==> {
        &&& evidence == Some(bytes)
        &&& s.fault is None
    }
    &&& outcome matches Err(ErrorModel::IoError(why)) ==> s.fault == Some(why)
}

/// The outcome of decoding a header obeys [`header_facts`], for every state
/// of the source.
pub proof fn lemma_header_facts(s: Stream)
    ensures
        header_facts(s, header_outcome(s)),
{
    let bytes = s.pending;
    let outcome = header_outcome(s);
    if let Ok(header) = outcome {
        assert(bytes.len() >= 12);
        let wire = header.wire_bytes();
        assert(u32_be_bytes(header.timestamp).len() == 4);
        assert(u16_be_bytes(header.entry_type.wire_code()).len() == 2);
        assert(u16_be_bytes(header.entry_subtype).len() == 2);
        assert(u32_be_bytes(header.wire_length()).len() == 4);
        if header.entry_type.is_extended() {
            assert(u32_be_bytes(header.microsecond_timestamp->0).len() == 4);
            assert(wire.len() == 16);
        } else {
            assert(wire.len() == 12);
        }
    }
}

/// Reads a four-byte field of the header that began at `mark`.  A failed read
/// reports the bytes read since `mark` as evidence.
fn read_header_u32(input: &mut ByteSource, mark: usize) -> (res: Result<u32, ParserError>)
    requires
        mark <= old(input)@.position(),
    ensures
        match res {
            Ok(value) => {
                &&& old(input)@.pending.len() >= 4
                &&& value == be_u32(old(input)@.pending)
                &&& final(input)@ == old(input)@.advance(4)
            },
            Err(e) => {
                &&& old(input)@.pending.len() < 4
                &&& final(input)@ == old(input)@.drain()
                &&& e@ == old(input)@.shortfall().with_evidence(
                    old(input)@.drain().consumed.skip(mark as int),
                )
            },
        },
{
    match input.read_u32() {
        Ok(value) => Ok(value),
        Err(e) => {
            proof {
                lemma_advance_past_end(old(input)@, old(input)@.pending.len());
            }
            let evidence = input.consumed_since(mark);
            Err(e.with_evidence(&evidence))
        },
    }
}

/// Reads a two-byte field of the header that began at `mark`.  A failed read
/// reports the bytes read since `mark` as evidence.
fn read_header_u16(input: &mut ByteSource, mark: usize) -> (res: Result<u16, ParserError>)
    requires
        mark <= old(input)@.position(),
    ensures
        match res {
            Ok(value) => {
                &&& old(input)@.pending.len() >= 2
                &&& value == be_u16(old(input)@.pending)
                &&& final(input)@ == old(input)@.advance(2)
            },
            Err(e) => {
                &&& old(input)@.pending.len() < 2
                &&& final(input)@ == old(input)@.drain()
                &&& e@ == old(input)@.shortfall().with_evidence(
                    old(input)@.drain().consumed.skip(mark as int),
                )
            },
        },
{
    match input.read_u16() {
        Ok(value) => Ok(value),
        Err(e) => {
            proof {
                lemma_advance_past_end(old(input)@, old(input)@.pending.len());
            }
            let evidence = input.consumed_since(mark);
            Err(e.with_evidence(&evidence))
        },
    }
}

/// A source that has read `k` bytes of the header that began in state
/// `start`, all of them there, is in state `now`; a read that fails from
/// there drains the bytes that were pending at the start, and they are its
/// evidence.
proof fn lemma_cut_inside_header(start: Stream, k: nat, now: Stream)
    requires
        k <= start.pending.len(),
        now == start.advance(k),
    ensures
        now.drain() == start.drain(),
        now.drain() == start.advance(start.pending.len()),
        now.shortfall() == start.shortfall(),
        now.pending == start.pending.skip(k as int),
        now.pending.len() == start.pending.len() - k,
        now.position() == start.position() + k,
        now.drain().consumed.skip(start.position() as int) == start.pending,
{
    lemma_advance_twice(start, k, now.pending.len());
    lemma_advance_past_end(start, k + now.pending.len());
    lemma_advance_past_end(start, start.pending.len());
    assert(now.consumed.len() == start.consumed.len() + k);
}

/// Decodes the common header of the record that starts at the cursor.
///
/// Takes twelve bytes from the source, or sixteen for the extended-timestamp
/// type.  Fails with `EofExpected` where the input has ended cleanly at this
/// record boundary, with `EofError` where it ends inside the header (the error
/// owns the header bytes that were there), with `IoError` where the transport
/// failed before the header was complete, and with `ParseError` for a type
/// code that stands for no type or an extended header whose length field is
/// below four.
pub fn parse_common_header(input: &mut ByteSource) -> (res: Result<CommonHeader, ParserError>)
    ensures
        match res {
            Ok(header) => header_outcome(old(input)@) == Ok::<CommonHeader, ErrorModel>(header),
            Err(e) => header_outcome(old(input)@) == Err::<CommonHeader, ErrorModel>(e@),
        },
        final(input)@ == old(input)@.advance(header_extent(old(input)@.pending)),
        header_facts(old(input)@, header_outcome(old(input)@)),
{
    proof {
        lemma_header_facts(old(input)@);
    }
    decode_header(input)
}

/// The header decoder proper: the fields in wire order, each judged as soon
/// as it is complete.
fn decode_header(input: &mut ByteSource) -> (res: Result<CommonHeader, ParserError>)
    ensures
        match res {
            Ok(header) => header_outcome(old(input)@) == Ok::<CommonHeader, ErrorModel>(header),
            Err(e) => header_outcome(old(input)@) == Err::<CommonHeader, ErrorModel>(e@),
        },
        final(input)@ == old(input)@.advance(header_extent(old(input)@.pending)),
{
    let ghost start = input@;
    let mark = input.position();
    if input.at_clean_end() {
        proof {
            lemma_advance_zero(start);
        }
        return Err(ParserError::EofExpected);
    }
    proof {
        lemma_cut_inside_header(start, 0, start.advance(0));
        lemma_advance_zero(start);
    }
    let timestamp = match read_header_u32(input, mark) {
        Ok(value) => value,
        Err(e) => {
            return Err(e);
        },
    };
    proof {
        lemma_cut_inside_header(start, 4, input@);
    }
    let code = match read_header_u16(input, mark) {
        Ok(value) => value,
        Err(e) => {
            return Err(e);
        },
    };
    proof {
        lemma_advance_twice(start, 4, 2);
        lemma_cut_inside_header(start, 6, input@);
    }
    let entry_type = match EntryType::from_u16(code) {
        Some(entry_type) => entry_type,
        None => {
            return Err(
                ParserError::ParseError(with_decimal("Failed to parse entry type: ", code as u32)),
            );
        },
    };
    let entry_subtype = match read_header_u16(input, mark) {
        Ok(value) => value,
        Err(e) => {
            return Err(e);
        },
    };
    proof {
        lemma_advance_twice(start, 6, 2);
        lemma_cut_inside_header(start, 8, input@);
    }
    let wire_length = match read_header_u32(input, mark) {
        Ok(value) => value,
        Err(e) => {
            return Err(e);
        },
    };
    proof {
        lemma_advance_twice(start, 8, 4);
        lemma_cut_inside_header(start, 12, input@);
    }
    match entry_type {
        EntryType::BGP4MP_ET => {
            if wire_length < 4 {
                return Err(
                    ParserError::ParseError(
                        with_decimal("Invalid length for extended timestamp header: ", wire_length),
                    ),
                );
            }
            let microseconds = match read_header_u32(input, mark) {
                Ok(value) => value,
                Err(e) => {
                    return Err(e);
                },
            };
            proof {
                lemma_advance_twice(start, 12, 4);
            }
            Ok(
                CommonHeader {
                    timestamp,
                    microsecond_timestamp: Some(microseconds),
                    entry_type,
                    entry_subtype,
                    length: wire_length - 4,
                },
            )
        },
        _ => Ok(
            CommonHeader {
                timestamp,
                microsecond_timestamp: None,
                entry_type,
                entry_subtype,
                length: wire_length,
            },
        ),
    }
}

} // verus!
