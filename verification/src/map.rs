//! The word-to-weight map, backed by hashbrown's hash map behind a trusted
//! boundary.
//!
//! The map's contents are described by [`word_map_contents`], a finite map
//! from the word's characters to the stored 32-bit weight pattern. Iteration
//! order is left open: the entries come out in some order, each exactly once.

use vstd::prelude::*;

verus! {

/// A map from canonical words to stored 32-bit weight patterns.
#[verifier::external_body]
pub struct WordMap {
    inner: hashbrown::HashMap<String, u32>,
}

impl Clone for WordMap {
    /// Relies on hashbrown's `HashMap::clone`: the copy holds the same
    /// entries.
    #[verifier::external_body]
    fn clone(&self) -> (r: Self)
        ensures
            word_map_contents(r) == word_map_contents(*self),
    {
        WordMap { inner: self.inner.clone() }
    }
}

/// What the map holds: each word's characters, mapped to its stored pattern.
pub uninterp spec fn word_map_contents(m: WordMap) -> Map<Seq<char>, u32>;

impl WordMap {
    /// What the map holds: each word's characters, mapped to its stored
    /// pattern.
    pub open spec fn contents(self) -> Map<Seq<char>, u32> {
        word_map_contents(self)
    }
}

/// Relies on hashbrown's `HashMap::new`: a fresh map holds nothing.
#[verifier::external_body]
pub fn word_map_new() -> (r: WordMap)
    ensures
        word_map_contents(r) == (Map::<Seq<char>, u32>::empty()),
{
    WordMap { inner: hashbrown::HashMap::new() }
}

/// Relies on hashbrown's `HashMap::insert`: the key now maps to the new
/// value and every other key is untouched.
#[verifier::external_body]
pub fn word_map_insert(m: &mut WordMap, word: String, bits: u32)
    ensures
        final(m).contents() == old(m).contents().insert(word@, bits),
{
    m.inner.insert(word, bits);
}

/// Relies on hashbrown's `HashMap::get`: returns the value stored under the
/// key, if any.
#[verifier::external_body]
pub fn word_map_get(m: &WordMap, word: &str) -> (r: Option<u32>)
    ensures
        r == if m.contents().dom().contains(word@) {
            Some(m.contents()[word@])
        } else {
            None::<u32>
        },
{
    m.inner.get(word).copied()
}

/// Relies on hashbrown's `HashMap::iter`: every entry is yielded exactly
/// once, in an order that is left unspecified.
#[verifier::external_body]
pub fn word_map_entries(m: &WordMap) -> (r: Vec<(String, u32)>)
    ensures
        forall|i: int| 0 <= i < r@.len() ==> m.contents().contains_pair(r@[i].0@, r@[i].1),
        forall|i: int, j: int| 0 <= i < j < r@.len() ==> r@[i].0@ != r@[j].0@,
        forall|k: Seq<char>|
            m.contents().dom().contains(k) ==> exists|i: int|
                0 <= i < r@.len() && r@[i].0@ == k,
{
    m.inner.iter().map(|(k, v)| (k.clone(), *v)).collect()
}

} // verus!
