//! Framing and dispatch of MRT archive records.
//!
//! An MRT archive is a sequence of records, each made of a fixed-layout common
//! header followed by a payload whose length the header declares.  This crate
//! decodes the header, frames exactly the declared payload out of a byte
//! source, and hands the payload to the body decoder that the record type
//! selects.  Every function is verified against a mathematical description of
//! the wire layout.

pub mod entry_type;
pub mod error;
pub mod header;
pub mod record;
pub mod source;
pub mod text;
pub mod wire;

pub use entry_type::{EntryType, MessageKind};
pub use error::ParserError;
pub use header::{parse_common_header, CommonHeader};
pub use record::{
    assemble_record, parse_mrt_record, parse_raw_bytes, BodyDecoders, MrtMessage, MrtRecord,
};
pub use source::ByteSource;
