//! Framing a record's payload and handing it to the body decoder of its type.
//!
//! The body decoders are not part of this library.  A caller supplies one per
//! record family as a function value; the library decides which one runs, on
//! which bytes, and what becomes of its answer.

use crate::entry_type::{EntryType, MessageKind};
use crate::error::{ErrorModel, ParserError};
use crate::header::{
    header_extent, header_outcome, lemma_header_round_trip, parse_common_header, CommonHeader,
};
use crate::source::{ByteSource, Stream};
use vstd::prelude::*;
use vstd::string::*;

verus! {

/// The decoded body of a record, tagged by the family of its type.
#[derive(Debug, PartialEq, Eq)]
pub enum MrtMessage<V1, V2, U> {
    /// A routing-table snapshot in the first encoding.
    TableDumpMessage(V1),
    /// A routing-table snapshot in the second, current encoding.
    TableDumpV2Message(V2),
    /// A captured live routing protocol message.
    Bgp4Mp(U),
}

/// A record: its common header and its decoded body.
#[derive(Debug, PartialEq, Eq)]
pub struct MrtRecord<V1, V2, U> {
    pub common_header: CommonHeader,
    pub message: MrtMessage<V1, V2, U>,
}

/// The body decoders, one per record family.
///
/// `table_dump` is called with the subtype and the payload; `table_dump_v2`
/// and `bgp4mp` are called with the subtype, the payload and the payload's
/// length.
pub struct BodyDecoders<F1, F2, F3> {
    pub table_dump: F1,
    pub table_dump_v2: F2,
    pub bgp4mp: F3,
}

impl<V1, V2, U> MrtMessage<V1, V2, U> {
    /// The family that the message belongs to.
    pub open spec fn kind(self) -> MessageKind {
        match self {
            MrtMessage::TableDumpMessage(_) => MessageKind::TableDump,
            MrtMessage::TableDumpV2Message(_) => MessageKind::TableDumpV2,
            MrtMessage::Bgp4Mp(_) => MessageKind::Bgp4Mp,
        }
    }
}

/// The message of the error for a record of a type that has no decoder.
pub open spec fn unsupported_text(entry_type: EntryType) -> Seq<char> {
    "unsupported MRT type: "@ + entry_type.name()
}

/// The decoder that the type of `header` selects may be called on `data`.
/// Nothing is asked of the decoders where the type selects none.
pub open spec fn decoders_accept<V1, V2, U, F1, F2, F3>(
    decoders: BodyDecoders<F1, F2, F3>,
    header: CommonHeader,
    data: Vec<u8>,
) -> bool where
    F1: Fn(u16, &Vec<u8>) -> Result<V1, ParserError>,
    F2: Fn(u16, &Vec<u8>, usize) -> Result<V2, ParserError>,
    F3: Fn(u16, &Vec<u8>, usize) -> Result<U, ParserError>,
{
    match header.entry_type.route() {
        Some(MessageKind::TableDump) => call_requires(
            decoders.table_dump,
            (header.entry_subtype, &data),
        ),
        Some(MessageKind::TableDumpV2) => call_requires(
            decoders.table_dump_v2,
            (header.entry_subtype, &data, data.len()),
        ),
        Some(MessageKind::Bgp4Mp) => call_requires(
            decoders.bgp4mp,
            (header.entry_subtype, &data, data.len()),
        ),
        None => true,
    }
}

/// `out` is what dispatching the payload `data` of a record with header
/// `header` can yield.
///
/// Where the type selects a decoder, `out` is an answer of that decoder, and
/// of no other, to the subtype and `data` (and the length of `data`, for the
/// two families that take it): a message under the tag of the family, or the
/// decoder's error as it came.  Where the type selects none, `out` is the
/// unsupported-type error.
pub open spec fn dispatched<V1, V2, U, F1, F2, F3>(
    decoders: BodyDecoders<F1, F2, F3>,
    header: CommonHeader,
    data: Vec<u8>,
    out: Result<MrtMessage<V1, V2, U>, ParserError>,
) -> bool where
    F1: Fn(u16, &Vec<u8>) -> Result<V1, ParserError>,
    F2: Fn(u16, &Vec<u8>, usize) -> Result<V2, ParserError>,
    F3: Fn(u16, &Vec<u8>, usize) -> Result<U, ParserError>,
{
    match header.entry_type.route() {
        Some(MessageKind::TableDump) => match out {
            Ok(MrtMessage::TableDumpMessage(message)) => call_ensures(
                decoders.table_dump,
                (header.entry_subtype, &data),
                Ok(message),
            ),
            Err(e) => call_ensures(decoders.table_dump, (header.entry_subtype, &data), Err(e)),
            _ => false,
        },
        Some(MessageKind::TableDumpV2) => match out {
            Ok(MrtMessage::TableDumpV2Message(message)) => call_ensures(
                decoders.table_dump_v2,
                (header.entry_subtype, &data, data.len()),
                Ok(message),
            ),
            Err(e) => call_ensures(
                decoders.table_dump_v2,
                (header.entry_subtype, &data, data.len()),
                Err(e),
            ),
            _ => false,
        },
        Some(MessageKind::Bgp4Mp) => match out {
            Ok(MrtMessage::Bgp4Mp(message)) => call_ensures(
                decoders.bgp4mp,
                (header.entry_subtype, &data, data.len()),
                Ok(message),
            ),
            Err(e) => call_ensures(
                decoders.bgp4mp,
                (header.entry_subtype, &data, data.len()),
                Err(e),
            ),
            _ => false,
        },
        None => out matches Err(e) && e@ == ErrorModel::Unsupported(
            unsupported_text(header.entry_type),
        ),
    }
}

/// Hands the payload of a record to the body decoder that its type selects.
///
/// The first table-snapshot type goes to `table_dump`, the second to
/// `table_dump_v2`, and both live-update types, with and without the extended
/// timestamp, to `bgp4mp`.  Any other type fails as unsupported, and no
/// decoder is called for it.
pub fn parse_raw_bytes<V1, V2, U, F1, F2, F3>(
    common_header: &CommonHeader,
    data: &Vec<u8>,
    decoders: &BodyDecoders<F1, F2, F3>,
) -> (res: Result<MrtMessage<V1, V2, U>, ParserError>) where
    F1: Fn(u16, &Vec<u8>) -> Result<V1, ParserError>,
    F2: Fn(u16, &Vec<u8>, usize) -> Result<V2, ParserError>,
    F3: Fn(u16, &Vec<u8>, usize) -> Result<U, ParserError>,

    requires
        decoders_accept(*decoders, *common_header, *data),
    ensures
        dispatched(*decoders, *common_header, *data, res),
        res matches Ok(message) ==> common_header.entry_type.route() == Some(message.kind()),
        common_header.entry_type.route() is None ==> res is Err,
{
    let total_len = data.len();
    match common_header.entry_type.message_kind() {
        Some(MessageKind::TableDump) => {
            match (decoders.table_dump)(common_header.entry_subtype, data) {
                Ok(message) => Ok(MrtMessage::TableDumpMessage(message)),
                Err(e) => Err(e),
            }
        },
        Some(MessageKind::TableDumpV2) => {
            match (decoders.table_dump_v2)(common_header.entry_subtype, data, total_len) {
                Ok(message) => Ok(MrtMessage::TableDumpV2Message(message)),
                Err(e) => Err(e),
            }
        },
        Some(MessageKind::Bgp4Mp) => {
            match (decoders.bgp4mp)(common_header.entry_subtype, data, total_len) {
                Ok(message) => Ok(MrtMessage::Bgp4Mp(message)),
                Err(e) => Err(e),
            }
        },
        None => {
            let mut text = String::from_str("unsupported MRT type: ");
            text.append(common_header.entry_type.as_str());
            Err(ParserError::Unsupported(text))
        },
    }
}

/// `res` is what becomes of the dispatcher's answer `decoded` for a record
/// with header `header` and framed payload `payload`.
///
/// A message is returned in a record under `header`.  A truncation error is
/// returned with its kind kept and exactly `payload` as its evidence.  Every
/// other error is returned as it came.
pub open spec fn assembled<V1, V2, U>(
    header: CommonHeader,
    payload: Seq<u8>,
    decoded: Result<MrtMessage<V1, V2, U>, ParserError>,
    res: Result<MrtRecord<V1, V2, U>, ParserError>,
) -> bool {
    match decoded {
        Ok(message) => res matches Ok(record) && record.common_header == header && record.message
            == message,
        Err(e) => res matches Err(x) && x@ == e@.with_evidence(payload) && (!(e is EofError) ==> x
            == e),
    }
}

/// Builds the result for a record from its header, its framed payload and the
/// dispatcher's answer.
///
/// Where the answer is a truncation error, the error that is returned owns a
/// copy of `buffer`, so that the caller sees the bytes that were there.
pub fn assemble_record<V1, V2, U>(
    common_header: CommonHeader,
    buffer: &Vec<u8>,
    decoded: Result<MrtMessage<V1, V2, U>, ParserError>,
) -> (res: Result<MrtRecord<V1, V2, U>, ParserError>)
    ensures
        assembled(common_header, buffer@, decoded, res),
{
    match decoded {
        Ok(message) => Ok(MrtRecord { common_header, message }),
        Err(e) => Err(e.with_evidence(buffer)),
    }
}

/// The state of a source in state `s` once the header of the record at the
/// cursor has been taken.
pub open spec fn body_start(s: Stream) -> Stream {
    s.advance(header_extent(s.pending))
}

/// The state of a source in state `s` once the record at the cursor has been
/// taken: past the header and, where the header was decoded, past the payload
/// bytes that were there, up to the declared length.
pub open spec fn after_record(s: Stream) -> Stream {
    match header_outcome(s) {
        Ok(header) => body_start(s).advance(header.length as nat),
        Err(_) => body_start(s),
    }
}

/// The transport fails inside the payload of the record that starts at the
/// cursor of a source in state `s`, whose header is `header`.
pub open spec fn payload_interrupted(s: Stream, header: CommonHeader) -> bool {
    body_start(s).pending.len() < header.length && body_start(s).fault is Some
}

/// The payload that is framed for the record at the cursor of a source in
/// state `s`, whose header is `header`: the declared number of bytes after
/// the header, or the bytes that are left where the input ends before that.
pub open spec fn framed_payload(s: Stream, header: CommonHeader) -> Seq<u8> {
    body_start(s).window(header.length as nat)
}

/// `res` is what parsing the record at the cursor of a source in state `s`
/// can yield.
///
/// A failure of the header is returned as it is.  A transport fault inside the
/// payload is returned as that fault.  Otherwise the framed payload is
/// dispatched, and the answer assembled.
pub open spec fn record_outcome<V1, V2, U, F1, F2, F3>(
    decoders: BodyDecoders<F1, F2, F3>,
    s: Stream,
    res: Result<MrtRecord<V1, V2, U>, ParserError>,
) -> bool where
    F1: Fn(u16, &Vec<u8>) -> Result<V1, ParserError>,
    F2: Fn(u16, &Vec<u8>, usize) -> Result<V2, ParserError>,
    F3: Fn(u16, &Vec<u8>, usize) -> Result<U, ParserError>,
{
    match header_outcome(s) {
        Err(e) => res matches Err(x) && x@ == e,
        Ok(header) => {
            if payload_interrupted(s, header) {
                res matches Err(x) && x@ == s.shortfall()
            } else {
                exists|buffer: Vec<u8>, decoded: Result<MrtMessage<V1, V2, U>, ParserError>|
                    {
                        &&& buffer@ == framed_payload(s, header)
                        &&& #[trigger] dispatched(decoders, header, buffer, decoded)
                        &&& assembled(header, buffer@, decoded, res)
                    }
            }
        },
    }
}

/// Parsing recovers an encoded record.
///
/// Take a well-formed header, a payload of the length that the header
/// declares, and a source whose pending bytes begin with the header's wire
/// encoding followed by the payload.  Then parsing takes exactly those bytes,
/// and hands exactly the payload, under exactly that header, to the decoder
/// that the header's type selects.  A record that comes back carries that
/// header (so its type, subtype and length are the ones encoded) and a message
/// of the family of its type.
pub proof fn lemma_record_round_trip<V1, V2, U, F1, F2, F3>(
    decoders: BodyDecoders<F1, F2, F3>,
    header: CommonHeader,
    payload: Seq<u8>,
    s: Stream,
    rest: Seq<u8>,
    res: Result<MrtRecord<V1, V2, U>, ParserError>,
) where
    F1: Fn(u16, &Vec<u8>) -> Result<V1, ParserError>,
    F2: Fn(u16, &Vec<u8>, usize) -> Result<V2, ParserError>,
    F3: Fn(u16, &Vec<u8>, usize) -> Result<U, ParserError>,

    requires
        header.wf(),
        payload.len() == header.length,
        s.pending == header.wire_bytes() + payload + rest,
        record_outcome(decoders, s, res),
    ensures
        header_outcome(s) == Ok::<CommonHeader, ErrorModel>(header),
        framed_payload(s, header) == payload,
        after_record(s).pending == rest,
        after_record(s).consumed == s.consumed + header.wire_bytes() + payload,
        exists|buffer: Vec<u8>, decoded: Result<MrtMessage<V1, V2, U>, ParserError>|
            {
                &&& buffer@ == payload
                &&& #[trigger] dispatched(decoders, header, buffer, decoded)
                &&& assembled(header, payload, decoded, res)
            },
        res matches Ok(record) ==> {
            &&& record.common_header == header
            &&& header.entry_type.route() == Some(record.message.kind())
        },
{
    assert(s.pending =~= header.wire_bytes() + (payload + rest));
    lemma_header_round_trip(header, s, payload + rest);
    let body = body_start(s);
    assert(body.pending == payload + rest);
    assert(body.window(header.length as nat) =~= payload);
    assert(body.advance(header.length as nat).pending =~= rest);
    assert(body.advance(header.length as nat).consumed =~= s.consumed + header.wire_bytes()
        + payload);
}

/// Parses the record that starts at the cursor: decodes its header, frames
/// its payload, and hands the payload to the body decoder of its type.
///
/// The payload is read with a bound: never past the declared length, and
/// short where the input ends before it.  A short payload is still handed to
/// the decoder.  Where the decoder reports a truncation, the error that is
/// returned owns the framed payload.
pub fn parse_mrt_record<V1, V2, U, F1, F2, F3>(
    input: &mut ByteSource,
    decoders: &BodyDecoders<F1, F2, F3>,
) -> (res: Result<MrtRecord<V1, V2, U>, ParserError>) where
    F1: Fn(u16, &Vec<u8>) -> Result<V1, ParserError>,
    F2: Fn(u16, &Vec<u8>, usize) -> Result<V2, ParserError>,
    F3: Fn(u16, &Vec<u8>, usize) -> Result<U, ParserError>,

    requires
        forall|header: CommonHeader, buffer: Vec<u8>|
            header_outcome(old(input)@) == Ok::<CommonHeader, ErrorModel>(header) && buffer@
                == framed_payload(old(input)@, header) ==> #[trigger] decoders_accept(
                *decoders,
                header,
                buffer,
            ),
    ensures
        record_outcome(*decoders, old(input)@, res),
        final(input)@ == after_record(old(input)@),
        // A record carries the header that was decoded and a message of the
        // family that the header's type selects.
        res matches Ok(record) ==> {
            &&& header_outcome(old(input)@) == Ok::<CommonHeader, ErrorModel>(record.common_header)
            &&& record.common_header.entry_type.route() == Some(record.message.kind())
        },
        // A type that selects no decoder fails as unsupported, unless the
        // transport fails inside the payload first.
        header_outcome(old(input)@) matches Ok(header) ==> (header.entry_type.route() is None
            && !payload_interrupted(old(input)@, header) ==> (res matches Err(e) && e@
            == ErrorModel::Unsupported(unsupported_text(header.entry_type)))),
        // A truncation always owns evidence: the bytes of the header where the
        // input ended inside it, and otherwise the framed payload, which is
        // never longer than the header declares.
        res matches Err(ParserError::EofError(evidence)) ==> evidence matches Some(bytes) && (
        match header_outcome(old(input)@) {
            Ok(header) => bytes@ == framed_payload(old(input)@, header) && bytes@.len()
                <= header.length,
            Err(_) => bytes@ == old(input)@.pending,
        }),
{
    let common_header = match parse_common_header(input) {
        Ok(header) => header,
        Err(e) => {
            return Err(e);
        },
    };
    let buffer = match input.read_up_to(common_header.length as usize) {
        Ok(bytes) => bytes,
        Err(e) => {
            return Err(e);
        },
    };
    let decoded = parse_raw_bytes(&common_header, &buffer, decoders);
    assemble_record(common_header, &buffer, decoded)
}

} // verus!
