//! The frequency model: a map from canonical words to stored weight
//! patterns, an optional per-language standardizer, and the lookup pipeline
//! that turns a queried word into its stored weight and digit-run data.
//!
//! Weights are carried as the 32-bit patterns of IEEE 754 single-precision
//! values and are never interpreted numerically here; combining a stored
//! weight with a digit-run estimate and a frequency floor is numeric work
//! done by the embedding application on the data a lookup reports.

use vstd::prelude::*;

use crate::errors::WordFreqError;
use crate::map::WordMap;
use crate::map::word_map_contents;
use crate::map::word_map_entries;
use crate::map::word_map_get;
use crate::map::word_map_insert;
use crate::map::word_map_new;
use crate::numbers::NumberHandler;
use crate::numbers::spec_digit_runs;
use crate::numbers::spec_smash;
use crate::preprocessers::Standardizer;

verus! {

/// Whether the bit pattern denotes a value strictly below zero in the
/// IEEE 754 single-precision interpretation: the sign bit is set, the
/// pattern is not the negative zero, and it is not a NaN pattern (all
/// exponent bits set with a nonzero fraction).
pub open spec fn f32_bits_is_negative(bits: u32) -> bool {
    bits > 0x8000_0000 && !((bits >> 23u32) & 0xFF == 0xFF && bits & 0x007F_FFFF != 0)
}

/// The characters-and-pattern view of a list of (word, pattern) pairs.
pub open spec fn pairs_view(pairs: Seq<(String, u32)>) -> Seq<(Seq<char>, u32)> {
    pairs.map(|_i: int, p: (String, u32)| (p.0@, p.1))
}

/// The map a list of pairs builds up, later pairs overriding earlier ones.
pub open spec fn map_of_pairs(pairs: Seq<(Seq<char>, u32)>) -> Map<Seq<char>, u32>
    decreases pairs.len(),
{
    if pairs.len() == 0 {
        Map::empty()
    } else {
        map_of_pairs(pairs.drop_last()).insert(pairs.last().0, pairs.last().1)
    }
}

/// What a lookup reports: the stored weight pattern under the smashed key,
/// whether smashing changed the standardized word (so a digit-run estimate
/// applies), and the ASCII digit groups that estimate is computed from.
pub struct WordLookup {
    /// The stored pattern under the smashed key, if the key is present.
    pub stored_bits: Option<u32>,
    /// Whether the word held a digit run, so the stored weight is to be
    /// scaled by the digit-run estimate.
    pub digit_corrected: bool,
    /// The ASCII digit groups of the standardized word, left to right.
    pub digit_runs: Vec<String>,
}

/// A word-frequency model. Immutable after construction except through the
/// builder-style configuration calls, which hand back a reconfigured value.
#[derive(Clone)]
pub struct WordFreq {
    map: WordMap,
    minimum: u32,
    num_handler: NumberHandler,
    standardizer: Option<Standardizer>,
}

impl WordFreq {
    /// The model's map, from canonical word to stored weight pattern.
    pub closed spec fn map_contents(self) -> Map<Seq<char>, u32> {
        self.map.contents()
    }

    /// The configured frequency floor, as a stored pattern.
    pub closed spec fn minimum_bits(self) -> u32 {
        self.minimum
    }

    /// The attached standardizer, if any.
    pub closed spec fn standardizer_spec(self) -> Option<Standardizer> {
        self.standardizer
    }

    /// The model carries the digit block table it was built with.
    pub closed spec fn wf(self) -> bool {
        self.num_handler.wf()
    }

    /// What a queried word looks like after standardization.
    pub open spec fn spec_standardized(self, word: Seq<char>) -> Seq<char> {
        match self.standardizer_spec() {
            Some(s) => s.spec_apply(word),
            None => word,
        }
    }

    /// The key a queried word is looked up under: its standardized form with
    /// every digit run smashed to zeroes.
    pub open spec fn spec_smashed(self, word: Seq<char>) -> Seq<char> {
        spec_smash(self.spec_standardized(word))
    }

    /// The stored pattern a queried word reaches, if its key is present.
    pub open spec fn spec_stored(self, word: Seq<char>) -> Option<u32> {
        let key = self.spec_smashed(word);
        if self.map_contents().dom().contains(key) {
            Some(self.map_contents()[key])
        } else {
            None
        }
    }

    /// Whether smashing changed the standardized word, so the stored weight
    /// is to be scaled by the digit-run estimate.
    pub open spec fn spec_digit_corrected(self, word: Seq<char>) -> bool {
        self.spec_smashed(word) != self.spec_standardized(word)
    }

    /// Creates a model from (word, stored pattern) pairs.
    ///
    /// A word appearing more than once keeps its last-supplied pattern. The
    /// patterns are stored exactly as given: rescaling raw weights into a
    /// probability distribution is numeric work done before this call.
    pub fn new(word_weights: Vec<(String, u32)>) -> (r: Self)
        ensures
            r.wf(),
            r.map_contents() == map_of_pairs(pairs_view(word_weights@)),
            r.minimum_bits() == 0,
            r.standardizer_spec() is None,
    {
        let mut map = word_map_new();
        let n = word_weights.len();
        let mut i: usize = 0;
        while i < n
            invariant
                i <= n,
                n == word_weights@.len(),
                word_map_contents(map) == map_of_pairs(
                    pairs_view(word_weights@.subrange(0, i as int)),
                ),
            decreases n - i,
        {
            let word = word_weights[i].0.clone();
            let bits = word_weights[i].1;
            word_map_insert(&mut map, word, bits);
            proof {
                let prefix = pairs_view(word_weights@.subrange(0, i + 1 as int));
                assert(prefix.drop_last() =~= pairs_view(word_weights@.subrange(0, i as int)));
                assert(word_map_contents(map) =~= map_of_pairs(prefix));
            }
            i = i + 1;
        }
        proof {
            assert(word_weights@.subrange(0, n as int) =~= word_weights@);
        }
        WordFreq { map, minimum: 0, num_handler: NumberHandler::new(), standardizer: None }
    }

    /// Sets the lower bound later reported frequencies are floored to.
    ///
    /// Fails exactly when the given pattern denotes a value below zero.
    pub fn minimum(self, minimum: u32) -> (r: Result<Self, WordFreqError>)
        ensures
            match r {
                Ok(m) => {
                    &&& !f32_bits_is_negative(minimum)
                    &&& m.wf() == self.wf()
                    &&& m.map_contents() == self.map_contents()
                    &&& m.minimum_bits() == minimum
                    &&& m.standardizer_spec() == self.standardizer_spec()
                },
                Err(e) => {
                    &&& f32_bits_is_negative(minimum)
                    &&& e matches WordFreqError::NegativeMinimum
                },
            },
    {
        let exponent_all_ones = (minimum >> 23u32) & 0xFF == 0xFF;
        let fraction_nonzero = minimum & 0x007F_FFFF != 0;
        if minimum > 0x8000_0000 && !(exponent_all_ones && fraction_nonzero) {
            return Err(WordFreqError::NegativeMinimum);
        }
        Ok(WordFreq { minimum, ..self })
    }

    /// Attaches a standardizer; every later lookup passes the queried word
    /// through it first.
    pub fn standardizer(self, standardizer: Standardizer) -> (r: Self)
        ensures
            r.wf() == self.wf(),
            r.map_contents() == self.map_contents(),
            r.minimum_bits() == self.minimum_bits(),
            r.standardizer_spec() == Some(standardizer),
    {
        WordFreq { standardizer: Some(standardizer), ..self }
    }

    /// The configured frequency floor, as a stored pattern.
    pub fn minimum_floor_bits(&self) -> (r: u32)
        ensures
            r == self.minimum_bits(),
    {
        self.minimum
    }

    /// Looks a word up: standardizes it, smashes its digit runs, fetches the
    /// stored pattern under the smashed key, and reports the digit groups a
    /// digit-run estimate is computed from.
    pub fn lookup(&self, word: &str) -> (r: WordLookup)
        requires
            self.wf(),
        ensures
            r.stored_bits == self.spec_stored(word@),
            r.digit_corrected == self.spec_digit_corrected(word@),
            r.digit_runs.deep_view() == spec_digit_runs(self.spec_standardized(word@)),
    {
        let standardized = match &self.standardizer {
            Some(s) => s.apply(word),
            None => word.to_owned(),
        };
        let smashed = self.num_handler.smash_numbers(standardized.as_str());
        let stored_bits = word_map_get(&self.map, smashed.as_str());
        let digit_corrected = !crate::strutil::str_eq(smashed.as_str(), standardized.as_str());
        let digit_runs = self.num_handler.digit_runs(standardized.as_str());
        WordLookup { stored_bits, digit_corrected, digit_runs }
    }

    /// The model's entries, each exactly once, in an unspecified order.
    pub fn entries(&self) -> (r: Vec<(String, u32)>)
        ensures
            forall|i: int| 0 <= i < r@.len() ==> self.map_contents().contains_pair(r@[i].0@, r@[i].1),
            forall|i: int, j: int| 0 <= i < j < r@.len() ==> r@[i].0@ != r@[j].0@,
            forall|k: Seq<char>|
                self.map_contents().dom().contains(k) ==> exists|i: int|
                    0 <= i < r@.len() && r@[i].0@ == k,
    {
        word_map_entries(&self.map)
    }
}

/// No two pairs share a key.
pub open spec fn unique_keys(pairs: Seq<(Seq<char>, u32)>) -> bool {
    forall|i: int, j: int| 0 <= i < j < pairs.len() ==> (#[trigger] pairs[i]).0 != (
    #[trigger] pairs[j]).0
}

/// A duplicate-free pair list that covers a map and stays inside it builds
/// exactly that map.
pub proof fn lemma_pairs_to_map(pairs: Seq<(Seq<char>, u32)>, m: Map<Seq<char>, u32>)
    requires
        unique_keys(pairs),
        forall|i: int| 0 <= i < pairs.len() ==> m.contains_pair(
            (#[trigger] pairs[i]).0,
            pairs[i].1,
        ),
        forall|k: Seq<char>| #[trigger] m.dom().contains(k) ==> exists|i: int|
            0 <= i < pairs.len() && (#[trigger] pairs[i]).0 == k,
    ensures
        map_of_pairs(pairs) == m,
    decreases pairs.len(),
{
    if pairs.len() == 0 {
        assert forall|k: Seq<char>| !(#[trigger] m.dom().contains(k)) by {
            if m.dom().contains(k) {
                let i = choose|i: int| 0 <= i < pairs.len() && (#[trigger] pairs[i]).0 == k;
            }
        }
        assert(m.dom() =~= Set::empty());
        assert(m =~= Map::empty());
    } else {
        let last = pairs.last();
        let front = pairs.drop_last();
        let m2 = m.remove(last.0);
        assert(last == pairs[pairs.len() - 1]);
        assert(m.contains_pair(last.0, last.1));
        assert forall|i: int| 0 <= i < front.len() implies m2.contains_pair(
            (#[trigger] front[i]).0,
            front[i].1,
        ) by {
            assert(front[i] == pairs[i]);
            assert(pairs[i].0 != last.0);
        }
        assert forall|k: Seq<char>| #[trigger] m2.dom().contains(k) implies exists|i: int|
            0 <= i < front.len() && (#[trigger] front[i]).0 == k by {
            let i = choose|i: int| 0 <= i < pairs.len() && (#[trigger] pairs[i]).0 == k;
            assert(i < pairs.len() - 1);
            assert(front[i] == pairs[i]);
        }
        lemma_pairs_to_map(front, m2);
        assert(map_of_pairs(pairs) == m2.insert(last.0, last.1));
        assert(m2.insert(last.0, last.1) =~= m);
    }
}

impl WordFreq {
    /// Exports the model's map as flat records: for each entry a
    /// length-prefixed UTF-8 word followed by its stored pattern, in an
    /// unspecified order, with no duplicate words.
    pub fn serialize(&self) -> (r: Result<Vec<u8>, WordFreqError>)
        ensures
            r is Ok,
            r matches Ok(bytes) ==> exists|pairs: Seq<(Seq<char>, u32)>|
                {
                    &&& #[trigger] unique_keys(pairs)
                    &&& map_of_pairs(pairs) == self.map_contents()
                    &&& (forall|i: int| 0 <= i < pairs.len() ==> (#[trigger] vstd::utf8::encode_utf8(
                        pairs[i].0,
                    )).len() <= u64::MAX)
                    &&& bytes@ == crate::codec::encode_records(pairs)
                },
    {
        let entries = word_map_entries(&self.map);
        let bytes = crate::codec::encode_entries(&entries);
        proof {
            let pairs = pairs_view(entries@);
            assert forall|i: int| 0 <= i < pairs.len() implies self.map_contents().contains_pair(
                (#[trigger] pairs[i]).0,
                pairs[i].1,
            ) by {
                assert(self.map_contents().contains_pair(entries@[i].0@, entries@[i].1));
            }
            assert forall|k: Seq<char>| #[trigger]
                self.map_contents().dom().contains(k) implies exists|i: int|
                0 <= i < pairs.len() && (#[trigger] pairs[i]).0 == k by {
                let i = choose|i: int| 0 <= i < entries@.len() && entries@[i].0@ == k;
                assert(pairs[i].0 == k);
            }
            lemma_pairs_to_map(pairs, self.map_contents());
        }
        Ok(bytes)
    }

    /// Rebuilds a model from the flat record form. The rebuilt model has no
    /// floor and no standardizer; a word serialized twice keeps the later
    /// record's pattern.
    ///
    /// Fails exactly when the bytes end inside a record, a length prefix
    /// overruns what is left, or a word is not valid UTF-8.
    pub fn deserialize(bytes: &[u8]) -> (r: Result<Self, WordFreqError>)
        ensures
            match r {
                Ok(m) => {
                    &&& crate::codec::parse_records(bytes@) matches
                        crate::codec::ParseOutcome::Parsed(pairs)
                    &&& m.wf()
                    &&& m.map_contents() == map_of_pairs(pairs)
                    &&& m.minimum_bits() == 0
                    &&& m.standardizer_spec() is None
                },
                Err(e) => match e {
                    WordFreqError::TruncatedRecord => crate::codec::parse_records(bytes@) is
                        Truncated,
                    WordFreqError::InvalidWordBytes => crate::codec::parse_records(bytes@) is
                        BadWord,
                    _ => false,
                },
            },
    {
        match crate::codec::parse_entries(bytes) {
            Ok(entries) => Ok(WordFreq::new(entries)),
            Err(e) => Err(e),
        }
    }
}

/// Round-trip law: parsing what was serialized yields the pairs that were
/// serialized, and rebuilding from them gives back exactly the original
/// map, for any model whose pair list is free of duplicate words.
///
/// The length bound only rules out words whose encoding could not carry an
/// eight-byte length prefix; every word held in memory satisfies it, and
/// `serialize` guarantees it of the pair list it emits.
pub proof fn lemma_serialize_deserialize_round_trip(
    pairs: Seq<(Seq<char>, u32)>,
    m: Map<Seq<char>, u32>,
)
    requires
        unique_keys(pairs),
        map_of_pairs(pairs) == m,
        forall|i: int| 0 <= i < pairs.len() ==> (#[trigger] vstd::utf8::encode_utf8(
            pairs[i].0,
        )).len() <= u64::MAX,
    ensures
        crate::codec::parse_records(crate::codec::encode_records(pairs))
            == crate::codec::ParseOutcome::Parsed(pairs),
        map_of_pairs(pairs) == m,
{
    crate::codec::lemma_parse_encode(pairs);
}

/// Words whose standardized forms smash to the same key share one stored
/// pattern: numbers differing only in their digits all reach the single map
/// entry held under the zeroed key, before the digit-run estimate tells
/// them apart.
pub proof fn lemma_shared_smashed_key(m: WordFreq, w1: Seq<char>, w2: Seq<char>)
    requires
        m.spec_smashed(w1) == m.spec_smashed(w2),
    ensures
        m.spec_stored(w1) == m.spec_stored(w2),
{
}

/// In a model without a standardizer, two purely numeric words with the
/// same digit count reach the same stored pattern: both are looked up under
/// the all-zero key of their length, and only the digit-run estimate
/// computed afterwards tells them apart.
pub proof fn lemma_equal_length_numbers_share_entry(m: WordFreq, w1: Seq<char>, w2: Seq<char>)
    requires
        m.standardizer_spec() is None,
        w1.len() == w2.len(),
        w1.len() >= 2,
        forall|i: int| 0 <= i < w1.len() ==> crate::digits::is_digit_char(#[trigger] w1[i]),
        forall|i: int| 0 <= i < w2.len() ==> crate::digits::is_digit_char(#[trigger] w2[i]),
    ensures
        m.spec_stored(w1) == m.spec_stored(w2),
{
    crate::numbers::lemma_number_smashes_to_zeroes(w1);
    crate::numbers::lemma_number_smashes_to_zeroes(w2);
}

/// Lookups depend only on the standardized word: when the attached
/// standardizer maps two words to the same text — as a case-folding
/// standardizer does for spellings differing only in case — the two words
/// reach the same stored pattern, the same digit correction and the same
/// digit groups.
pub proof fn lemma_lookup_standardized_equivalence(m: WordFreq, w1: Seq<char>, w2: Seq<char>)
    requires
        m.spec_standardized(w1) == m.spec_standardized(w2),
    ensures
        m.spec_stored(w1) == m.spec_stored(w2),
        m.spec_digit_corrected(w1) == m.spec_digit_corrected(w2),
        spec_digit_runs(m.spec_standardized(w1)) == spec_digit_runs(m.spec_standardized(w2)),
{
}

} // verus!
