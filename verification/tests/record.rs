use mrt_record::{
    assemble_record, parse_mrt_record, parse_raw_bytes, BodyDecoders, ByteSource, CommonHeader,
    EntryType, MrtMessage, MrtRecord, ParserError,
};
use std::cell::RefCell;

type Seen = (u16, Vec<u8>, Option<usize>);

fn record_bytes(timestamp: u32, code: u16, subtype: u16, length: u32, payload: &[u8]) -> Vec<u8> {
    let mut bytes = Vec::new();
    bytes.extend_from_slice(&timestamp.to_be_bytes());
    bytes.extend_from_slice(&code.to_be_bytes());
    bytes.extend_from_slice(&subtype.to_be_bytes());
    bytes.extend_from_slice(&length.to_be_bytes());
    bytes.extend_from_slice(payload);
    bytes
}

fn header(entry_type: EntryType, subtype: u16, length: u32) -> CommonHeader {
    CommonHeader {
        timestamp: 11,
        microsecond_timestamp: if entry_type == EntryType::BGP4MP_ET { Some(5) } else { None },
        entry_type,
        entry_subtype: subtype,
        length,
    }
}

#[test]
fn table_dump_v2_record_of_sixteen_bytes() {
    let bytes = record_bytes(1, 13, 2, 4, &[0xde, 0xad, 0xbe, 0xef]);
    assert_eq!(bytes.len(), 16);
    let mut source = ByteSource::new(bytes);
    let decoders = BodyDecoders {
        table_dump: |_: u16, _: &Vec<u8>| -> Result<u8, ParserError> { panic!("wrong decoder") },
        table_dump_v2: |subtype: u16, data: &Vec<u8>, len: usize| -> Result<Seen, ParserError> {
            Ok((subtype, data.clone(), Some(len)))
        },
        bgp4mp: |_: u16, _: &Vec<u8>, _: usize| -> Result<u8, ParserError> {
            panic!("wrong decoder")
        },
    };
    let record = parse_mrt_record(&mut source, &decoders).unwrap();
    assert_eq!(record.common_header.timestamp, 1);
    assert_eq!(record.common_header.length, 4);
    assert_eq!(record.common_header.entry_type, EntryType::TABLE_DUMP_V2);
    assert_eq!(record.common_header.entry_subtype, 2);
    assert_eq!(record.common_header.microsecond_timestamp, None);
    assert_eq!(
        record.message,
        MrtMessage::TableDumpV2Message((2, vec![0xde, 0xad, 0xbe, 0xef], Some(4)))
    );
    assert_eq!(source.position(), 16);
    assert_eq!(source.remaining(), 0);
    assert_eq!(parse_mrt_record(&mut source, &decoders).unwrap_err(), ParserError::EofExpected);
}

fn tracing_decoders<'a>(
    calls: &'a RefCell<Vec<&'static str>>,
) -> BodyDecoders<
    impl Fn(u16, &Vec<u8>) -> Result<Seen, ParserError> + 'a,
    impl Fn(u16, &Vec<u8>, usize) -> Result<Seen, ParserError> + 'a,
    impl Fn(u16, &Vec<u8>, usize) -> Result<Seen, ParserError> + 'a,
> {
    BodyDecoders {
        table_dump: move |subtype: u16, data: &Vec<u8>| {
            calls.borrow_mut().push("table_dump");
            Ok((subtype, data.clone(), None))
        },
        table_dump_v2: move |subtype: u16, data: &Vec<u8>, len: usize| {
            calls.borrow_mut().push("table_dump_v2");
            Ok((subtype, data.clone(), Some(len)))
        },
        bgp4mp: move |subtype: u16, data: &Vec<u8>, len: usize| {
            calls.borrow_mut().push("bgp4mp");
            Ok((subtype, data.clone(), Some(len)))
        },
    }
}

#[test]
fn table_dump_goes_to_the_first_decoder_only() {
    let calls = RefCell::new(Vec::new());
    let decoders = tracing_decoders(&calls);
    let data = vec![1u8, 2, 3];
    let message = parse_raw_bytes(&header(EntryType::TABLE_DUMP, 7, 3), &data, &decoders).unwrap();
    assert_eq!(message, MrtMessage::TableDumpMessage((7, vec![1, 2, 3], None)));
    assert_eq!(*calls.borrow(), vec!["table_dump"]);
}

#[test]
fn table_dump_v2_goes_to_the_second_decoder_only() {
    let calls = RefCell::new(Vec::new());
    let decoders = tracing_decoders(&calls);
    let data = vec![1u8, 2, 3, 4, 5];
    let message =
        parse_raw_bytes(&header(EntryType::TABLE_DUMP_V2, 1, 5), &data, &decoders).unwrap();
    assert_eq!(message, MrtMessage::TableDumpV2Message((1, vec![1, 2, 3, 4, 5], Some(5))));
    assert_eq!(*calls.borrow(), vec!["table_dump_v2"]);
}

#[test]
fn both_bgp4mp_types_go_to_the_same_decoder() {
    for entry_type in [EntryType::BGP4MP, EntryType::BGP4MP_ET] {
        let calls = RefCell::new(Vec::new());
        let decoders = tracing_decoders(&calls);
        let data = vec![9u8, 8];
        let message = parse_raw_bytes(&header(entry_type, 4, 2), &data, &decoders).unwrap();
        assert_eq!(message, MrtMessage::Bgp4Mp((4, vec![9, 8], Some(2))));
        assert_eq!(*calls.borrow(), vec!["bgp4mp"]);
    }
}

#[test]
fn decoder_gets_the_length_of_the_buffer_not_of_the_header() {
    let calls = RefCell::new(Vec::new());
    let decoders = tracing_decoders(&calls);
    let data = vec![9u8, 8];
    let message = parse_raw_bytes(&header(EntryType::BGP4MP, 4, 100), &data, &decoders).unwrap();
    assert_eq!(message, MrtMessage::Bgp4Mp((4, vec![9, 8], Some(2))));
}

#[test]
fn other_types_are_unsupported_and_call_no_decoder() {
    let others = [
        (EntryType::NULL, "NULL"),
        (EntryType::START, "START"),
        (EntryType::DIE, "DIE"),
        (EntryType::I_AM_DEAD, "I_AM_DEAD"),
        (EntryType::PEER_DOWN, "PEER_DOWN"),
        (EntryType::BGP, "BGP"),
        (EntryType::RIP, "RIP"),
        (EntryType::IDRP, "IDRP"),
        (EntryType::RIPNG, "RIPNG"),
        (EntryType::BGP4PLUS, "BGP4PLUS"),
        (EntryType::BGP4PLUS_01, "BGP4PLUS_01"),
        (EntryType::OSPFv2, "OSPFv2"),
        (EntryType::ISIS, "ISIS"),
        (EntryType::ISIS_ET, "ISIS_ET"),
        (EntryType::OSPFv3, "OSPFv3"),
        (EntryType::OSPFv3_ET, "OSPFv3_ET"),
    ];
    for (entry_type, name) in others {
        let calls = RefCell::new(Vec::new());
        let decoders = tracing_decoders(&calls);
        let data = vec![1u8, 2, 3];
        assert_eq!(
            parse_raw_bytes(&header(entry_type, 0, 3), &data, &decoders),
            Err(ParserError::Unsupported(format!("unsupported MRT type: {}", name)))
        );
        assert!(calls.borrow().is_empty());
    }
}

#[test]
fn unsupported_record_is_read_to_its_end() {
    let mut bytes = record_bytes(1, 11, 0, 3, &[1, 2, 3]);
    bytes.extend_from_slice(&record_bytes(2, 12, 1, 2, &[4, 5]));
    let mut source = ByteSource::new(bytes);
    let calls = RefCell::new(Vec::new());
    let decoders = tracing_decoders(&calls);
    assert_eq!(
        parse_mrt_record(&mut source, &decoders),
        Err(ParserError::Unsupported("unsupported MRT type: OSPFv2".to_string()))
    );
    assert_eq!(source.position(), 15);
    assert!(calls.borrow().is_empty());
    let next = parse_mrt_record(&mut source, &decoders).unwrap();
    assert_eq!(next.common_header.timestamp, 2);
    assert_eq!(next.message, MrtMessage::TableDumpMessage((1, vec![4, 5], None)));
    assert_eq!(*calls.borrow(), vec!["table_dump"]);
}

#[test]
fn extended_record_frames_the_adjusted_length() {
    let mut bytes = record_bytes(1, 17, 4, 7, &[0, 0, 0, 42]);
    bytes.extend_from_slice(&[1, 2, 3]);
    bytes.extend_from_slice(&[0xff, 0xff]);
    let mut source = ByteSource::new(bytes);
    let calls = RefCell::new(Vec::new());
    let decoders = tracing_decoders(&calls);
    let record = parse_mrt_record(&mut source, &decoders).unwrap();
    assert_eq!(record.common_header.length, 3);
    assert_eq!(record.common_header.microsecond_timestamp, Some(42));
    assert_eq!(record.message, MrtMessage::Bgp4Mp((4, vec![1, 2, 3], Some(3))));
    assert_eq!(source.position(), 19);
    assert_eq!(source.remaining(), 2);
}

#[test]
fn payload_is_never_read_past_the_declared_length() {
    let mut bytes = record_bytes(1, 12, 1, 2, &[4, 5, 6, 7, 8]);
    bytes.truncate(12 + 5);
    let mut source = ByteSource::new(bytes);
    let calls = RefCell::new(Vec::new());
    let decoders = tracing_decoders(&calls);
    let record = parse_mrt_record(&mut source, &decoders).unwrap();
    assert_eq!(record.message, MrtMessage::TableDumpMessage((1, vec![4, 5], None)));
    assert_eq!(source.position(), 14);
    assert_eq!(source.remaining(), 3);
}

#[test]
fn short_payload_is_still_dispatched() {
    let bytes = record_bytes(1, 13, 1, 10, &[4, 5, 6]);
    let mut source = ByteSource::new(bytes);
    let calls = RefCell::new(Vec::new());
    let decoders = tracing_decoders(&calls);
    let record = parse_mrt_record(&mut source, &decoders).unwrap();
    assert_eq!(record.common_header.length, 10);
    assert_eq!(record.message, MrtMessage::TableDumpV2Message((1, vec![4, 5, 6], Some(3))));
    assert_eq!(source.remaining(), 0);
}

#[test]
fn empty_payload_is_dispatched() {
    let bytes = record_bytes(1, 16, 1, 0, &[]);
    let mut source = ByteSource::new(bytes);
    let calls = RefCell::new(Vec::new());
    let decoders = tracing_decoders(&calls);
    let record = parse_mrt_record(&mut source, &decoders).unwrap();
    assert_eq!(record.message, MrtMessage::Bgp4Mp((1, vec![], Some(0))));
    assert_eq!(source.position(), 12);
}

fn failing_decoders(
    make: fn() -> ParserError,
) -> BodyDecoders<
    impl Fn(u16, &Vec<u8>) -> Result<u8, ParserError>,
    impl Fn(u16, &Vec<u8>, usize) -> Result<u8, ParserError>,
    impl Fn(u16, &Vec<u8>, usize) -> Result<u8, ParserError>,
> {
    BodyDecoders {
        table_dump: move |_: u16, _: &Vec<u8>| Err(make()),
        table_dump_v2: move |_: u16, _: &Vec<u8>, _: usize| Err(make()),
        bgp4mp: move |_: u16, _: &Vec<u8>, _: usize| Err(make()),
    }
}

#[test]
fn truncation_from_the_decoder_gets_the_framed_payload() {
    for code in [12u16, 13, 16] {
        let mut bytes = record_bytes(1, code, 1, 4, &[4, 5, 6, 7]);
        bytes.extend_from_slice(&[0xaa, 0xbb]);
        let mut source = ByteSource::new(bytes);
        let decoders = failing_decoders(|| ParserError::EofError(None));
        assert_eq!(
            parse_mrt_record(&mut source, &decoders),
            Err(ParserError::EofError(Some(vec![4, 5, 6, 7])))
        );
        assert_eq!(source.position(), 16);
    }
}

#[test]
fn truncation_from_the_decoder_replaces_older_evidence() {
    let bytes = record_bytes(1, 13, 1, 9, &[4, 5, 6]);
    let mut source = ByteSource::new(bytes);
    let decoders = failing_decoders(|| ParserError::EofError(Some(vec![0xee; 40])));
    assert_eq!(
        parse_mrt_record(&mut source, &decoders),
        Err(ParserError::EofError(Some(vec![4, 5, 6])))
    );
}

#[test]
fn truncation_on_an_empty_payload_owns_an_empty_buffer() {
    let bytes = record_bytes(1, 13, 1, 9, &[]);
    let mut source = ByteSource::new(bytes);
    let decoders = failing_decoders(|| ParserError::EofError(None));
    assert_eq!(
        parse_mrt_record(&mut source, &decoders),
        Err(ParserError::EofError(Some(vec![])))
    );
}

#[test]
fn other_decoder_errors_come_back_unchanged() {
    let makers: [fn() -> ParserError; 4] = [
        || ParserError::ParseError("bad prefix".to_string()),
        || ParserError::Unsupported("subtype 9".to_string()),
        || ParserError::IoError("inner".to_string()),
        || ParserError::EofExpected,
    ];
    for make in makers {
        let bytes = record_bytes(1, 16, 1, 2, &[4, 5]);
        let mut source = ByteSource::new(bytes);
        let decoders = failing_decoders(make);
        assert_eq!(parse_mrt_record(&mut source, &decoders), Err(make()));
        assert_eq!(source.position(), 14);
    }
}

#[test]
fn header_failures_pass_through_the_record_parser() {
    let calls = RefCell::new(Vec::new());
    let decoders = tracing_decoders(&calls);
    let mut source = ByteSource::new(vec![0, 0, 0, 1, 0, 13, 0]);
    assert_eq!(
        parse_mrt_record(&mut source, &decoders),
        Err(ParserError::EofError(Some(vec![0, 0, 0, 1, 0, 13, 0])))
    );
    let mut source = ByteSource::new(vec![0, 0, 0, 1, 0, 15, 0, 0, 0, 0, 0, 0]);
    assert_eq!(
        parse_mrt_record(&mut source, &decoders),
        Err(ParserError::ParseError("Failed to parse entry type: 15".to_string()))
    );
    assert_eq!(source.position(), 6);
    assert!(calls.borrow().is_empty());
}

#[test]
fn transport_fault_inside_the_payload() {
    let bytes = record_bytes(1, 13, 1, 9, &[4, 5, 6]);
    let mut source = ByteSource::interrupted(bytes, "timed out".to_string());
    let calls = RefCell::new(Vec::new());
    let decoders = tracing_decoders(&calls);
    assert_eq!(
        parse_mrt_record(&mut source, &decoders),
        Err(ParserError::IoError("timed out".to_string()))
    );
    assert_eq!(source.position(), 15);
    assert!(calls.borrow().is_empty());
}

#[test]
fn transport_fault_after_the_payload_does_not_touch_the_record() {
    let bytes = record_bytes(1, 13, 1, 3, &[4, 5, 6]);
    let mut source = ByteSource::interrupted(bytes, "timed out".to_string());
    let calls = RefCell::new(Vec::new());
    let decoders = tracing_decoders(&calls);
    let record = parse_mrt_record(&mut source, &decoders).unwrap();
    assert_eq!(record.message, MrtMessage::TableDumpV2Message((1, vec![4, 5, 6], Some(3))));
    assert_eq!(
        parse_mrt_record(&mut source, &decoders),
        Err(ParserError::IoError("timed out".to_string()))
    );
}

#[test]
fn assemble_record_keeps_header_and_message() {
    let h = header(EntryType::TABLE_DUMP, 1, 2);
    let built: Result<MrtRecord<u8, u8, u8>, ParserError> =
        assemble_record(h, &vec![1, 2], Ok(MrtMessage::TableDumpMessage(5)));
    assert_eq!(
        built,
        Ok(MrtRecord { common_header: h, message: MrtMessage::TableDumpMessage(5) })
    );
}

#[test]
fn assemble_record_attaches_evidence_to_truncations_only() {
    let h = header(EntryType::BGP4MP, 1, 2);
    let buffer = vec![7u8, 8];
    let truncated: Result<MrtRecord<u8, u8, u8>, ParserError> =
        assemble_record(h, &buffer, Err(ParserError::EofError(None)));
    assert_eq!(truncated, Err(ParserError::EofError(Some(vec![7, 8]))));
    let malformed: Result<MrtRecord<u8, u8, u8>, ParserError> =
        assemble_record(h, &buffer, Err(ParserError::ParseError("x".to_string())));
    assert_eq!(malformed, Err(ParserError::ParseError("x".to_string())));
}

#[test]
fn records_round_trip_through_the_wire_layout() {
    let cases: [(u16, EntryType, Option<u32>); 4] = [
        (12, EntryType::TABLE_DUMP, None),
        (13, EntryType::TABLE_DUMP_V2, None),
        (16, EntryType::BGP4MP, None),
        (17, EntryType::BGP4MP_ET, Some(250_000)),
    ];
    for (code, entry_type, microseconds) in cases {
        let payload = vec![10u8, 20, 30, 40, 50];
        let mut bytes = Vec::new();
        bytes.extend_from_slice(&1_650_000_000u32.to_be_bytes());
        bytes.extend_from_slice(&code.to_be_bytes());
        bytes.extend_from_slice(&3u16.to_be_bytes());
        match microseconds {
            Some(us) => {
                bytes.extend_from_slice(&(payload.len() as u32 + 4).to_be_bytes());
                bytes.extend_from_slice(&us.to_be_bytes());
            }
            None => bytes.extend_from_slice(&(payload.len() as u32).to_be_bytes()),
        }
        let header_len = bytes.len();
        bytes.extend_from_slice(&payload);
        bytes.extend_from_slice(&[0xff; 3]);
        let mut source = ByteSource::new(bytes);
        let calls = RefCell::new(Vec::new());
        let decoders = tracing_decoders(&calls);
        let record = parse_mrt_record(&mut source, &decoders).unwrap();
        assert_eq!(
            record.common_header,
            CommonHeader {
                timestamp: 1_650_000_000,
                microsecond_timestamp: microseconds,
                entry_type,
                entry_subtype: 3,
                length: 5,
            }
        );
        let seen = match record.message {
            MrtMessage::TableDumpMessage(seen) => {
                assert_eq!(entry_type, EntryType::TABLE_DUMP);
                seen
            }
            MrtMessage::TableDumpV2Message(seen) => {
                assert_eq!(entry_type, EntryType::TABLE_DUMP_V2);
                seen
            }
            MrtMessage::Bgp4Mp(seen) => {
                assert!(entry_type == EntryType::BGP4MP || entry_type == EntryType::BGP4MP_ET);
                seen
            }
        };
        assert_eq!(seen.0, 3);
        assert_eq!(seen.1, payload);
        assert_eq!(source.position(), header_len + 5);
        assert_eq!(source.remaining(), 3);
    }
}
