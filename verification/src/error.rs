//! The failures that parsing a record can report.

use vstd::prelude::*;

verus! {

/// Why no record was produced.
///
/// Every failure is exactly one of these kinds, and none is retried or
/// dropped inside the library: the caller decides whether to wait, skip or
/// abort.
#[derive(Debug, PartialEq, Eq)]
pub enum ParserError {
    /// The transport under the byte source failed.  Carries the description
    /// of the fault that the source was created with.
    IoError(String),
    /// The input ended in the middle of a record.  Carries the bytes that had
    /// been collected for the truncated part, when they are known.
    EofError(Option<Vec<u8>>),
    /// The input ended cleanly at a record boundary: there are no more
    /// records.  This ends iteration and is not a fault.
    EofExpected,
    /// A field holds a value that the format does not allow.
    ParseError(String),
    /// The record is of a known type that has no decoder.
    Unsupported(String),
}

/// The mathematical value of a [`ParserError`]: the same kinds, with strings
/// and buffers replaced by sequences.
pub enum ErrorModel {
    IoError(Seq<char>),
    EofError(Option<Seq<u8>>),
    EofExpected,
    ParseError(Seq<char>),
    Unsupported(Seq<char>),
}

impl View for ParserError {
    type V = ErrorModel;

    open spec fn view(&self) -> ErrorModel {
        match self {
            ParserError::IoError(why) => ErrorModel::IoError(why@),
            ParserError::EofError(Some(bytes)) => ErrorModel::EofError(Some(bytes@)),
            ParserError::EofError(None) => ErrorModel::EofError(None),
            ParserError::EofExpected => ErrorModel::EofExpected,
            ParserError::ParseError(what) => ErrorModel::ParseError(what@),
            ParserError::Unsupported(what) => ErrorModel::Unsupported(what@),
        }
    }
}

impl ErrorModel {
    /// The error with `evidence` attached where the kind carries evidence:
    /// a truncation keeps its kind and now owns exactly `evidence`; every
    /// other kind is unchanged.
    pub open spec fn with_evidence(self, evidence: Seq<u8>) -> ErrorModel {
        match self {
            ErrorModel::EofError(_) => ErrorModel::EofError(Some(evidence)),
            other => other,
        }
    }
}

impl ParserError {
    /// Attaches the bytes collected for a record to a truncation error, and
    /// hands any other error back as it is.
    pub fn with_evidence(self, evidence: &Vec<u8>) -> (res: ParserError)
        ensures
            res@ == self@.with_evidence(evidence@),
            !(self is EofError) ==> res == self,
    {
        match self {
            ParserError::EofError(_) => ParserError::EofError(Some(evidence.clone())),
            other => other,
        }
    }
}

} // verus!
