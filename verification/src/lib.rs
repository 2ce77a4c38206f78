//! Word-frequency lookup: a compact model mapping words to stored frequency
//! weights, a per-language text standardizer, digit-run smashing, and a flat
//! binary codec for the model's map.
//!
//! Frequency weights travel through this crate as the 32-bit patterns of
//! IEEE 754 single-precision values; combining and rescaling them is numeric
//! work left to the embedding application.

use vstd::prelude::*;

pub mod codec;
pub mod corpus;
pub mod digits;
pub mod errors;
pub mod language;
pub mod map;
pub mod model;
pub mod numbers;
pub mod preprocessers;
pub mod strutil;
pub mod transliterate;

verus! {

pub use corpus::word_weight_lines;
pub use errors::WordFreqError;
pub use model::WordFreq;
pub use model::WordLookup;
pub use numbers::NumberHandler;
pub use preprocessers::Standardizer;
pub use transliterate::Transliterater;
pub use transliterate::Transliteration;

/// The pre-compiled model shipped with the example data.
pub enum ModelKind {
    /// The tiny English example model used by the documentation and tests.
    ExampleEn,
}

} // verus!
