//! Error values surfaced at construction or load time. Lookups themselves are
//! total and never fail.

use vstd::prelude::*;

verus! {

/// Everything that can go wrong while building or loading a model.
///
/// Lookup calls never produce an error: an unknown word simply reports no
/// stored weight.
#[derive(Clone, Debug, PartialEq, Eq)]
pub enum WordFreqError {
    /// A frequency floor below zero was requested.
    NegativeMinimum,
    /// The language tag handed to the standardizer is not a supported one.
    UnknownLanguageTag { tag: String },
    /// A corpus line did not consist of exactly a word and a weight.
    MalformedLine { line_number: usize, content: String },
    /// A serialized model ended in the middle of a record, or a record's
    /// length prefix overran the remaining bytes.
    TruncatedRecord,
    /// A serialized record's word bytes are not valid UTF-8.
    InvalidWordBytes,
}

} // verus!
