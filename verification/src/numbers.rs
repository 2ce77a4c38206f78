//! Digit-run handling: smashing multi-digit runs to zeroes and extracting the
//! digit groups a frequency estimate is later computed from.
//!
//! A run is a digit followed by one or more characters that are digits,
//! periods or commas. Smashing replaces every digit inside such a run with
//! `0` and leaves the punctuation alone; an isolated single digit is not a
//! run and stays untouched.

use vstd::prelude::*;

use crate::digits::ascii_digit;
use crate::digits::digit_value;
use crate::digits::digit_value_of;
use crate::digits::is_digit_char;
use crate::digits::nd_block_start_vec;
use crate::digits::nd_block_starts;
use crate::digits::spec_ascii_digit;
use crate::strutil::chars_vec;
use crate::strutil::string_from_chars;

verus! {

/// Whether a character can continue a digit run.
pub open spec fn in_run_class(c: char) -> bool {
    is_digit_char(c) || c == '.' || c == ','
}

/// The first position at or after `i` that is outside the run-continuation
/// class (or the end of the text).
pub open spec fn run_end(t: Seq<char>, i: int) -> int
    decreases t.len() - i,
{
    if i < 0 || i >= t.len() {
        i
    } else if in_run_class(t[i]) {
        run_end(t, i + 1)
    } else {
        i
    }
}

pub proof fn lemma_run_end_bounds(t: Seq<char>, i: int)
    requires
        0 <= i <= t.len(),
    ensures
        i <= run_end(t, i) <= t.len(),
    decreases t.len() - i,
{
    if i < t.len() && in_run_class(t[i]) {
        lemma_run_end_bounds(t, i + 1);
    }
}

/// Whether a digit run starts at position `i`: a digit followed by at least
/// one more run-class character.
pub open spec fn starts_run(t: Seq<char>, i: int) -> bool {
    &&& 0 <= i
    &&& i + 1 < t.len()
    &&& is_digit_char(t[i])
    &&& in_run_class(t[i + 1])
}

/// A digit replaced by ASCII zero; anything else kept.
pub open spec fn zeroed_char(c: char) -> char {
    if is_digit_char(c) {
        '0'
    } else {
        c
    }
}

/// The text from position `i` on, with every digit inside a digit run
/// replaced by ASCII zero.
pub open spec fn smash_from(t: Seq<char>, i: int) -> Seq<char>
    decreases t.len() - i,
    via smash_from_dec
{
    if i < 0 || i >= t.len() {
        Seq::empty()
    } else if starts_run(t, i) {
        let j = run_end(t, i + 1);
        t.subrange(i, j).map(|_k: int, c: char| zeroed_char(c)) + smash_from(t, j)
    } else {
        seq![t[i]] + smash_from(t, i + 1)
    }
}

#[via_fn]
proof fn smash_from_dec(t: Seq<char>, i: int) {
    if 0 <= i && i < t.len() && starts_run(t, i) {
        lemma_run_end_bounds(t, i + 1);
    }
}

/// The whole text with every digit run smashed.
pub open spec fn spec_smash(t: Seq<char>) -> Seq<char> {
    smash_from(t, 0)
}

/// The digit a digit character stands for, as its ASCII equivalent.
pub open spec fn digit_char_ascii(c: char) -> char {
    match digit_value(c) {
        Some(d) => spec_ascii_digit(d),
        None => c,
    }
}

/// A digit group converted to plain ASCII digits.
pub open spec fn ascii_of(g: Seq<char>) -> Seq<char> {
    g.map(|_k: int, c: char| digit_char_ascii(c))
}

/// The first position in `[i, hi]` that is not a digit (or `hi`).
pub open spec fn digit_end(t: Seq<char>, i: int, hi: int) -> int
    decreases hi - i,
{
    if i < 0 || i >= hi {
        i
    } else if is_digit_char(t[i]) {
        digit_end(t, i + 1, hi)
    } else {
        i
    }
}

pub proof fn lemma_digit_end_bounds(t: Seq<char>, i: int, hi: int)
    requires
        0 <= i <= hi,
    ensures
        i <= digit_end(t, i, hi) <= hi,
    decreases hi - i,
{
    if i < hi && is_digit_char(t[i]) {
        lemma_digit_end_bounds(t, i + 1, hi);
    }
}

/// The maximal digit groups between positions `i` and `hi`, each converted
/// to ASCII digits.
pub open spec fn groups_between(t: Seq<char>, i: int, hi: int) -> Seq<Seq<char>>
    decreases hi - i,
    via groups_between_dec
{
    if i < 0 || i >= hi {
        Seq::empty()
    } else if is_digit_char(t[i]) {
        let j = digit_end(t, i + 1, hi);
        seq![ascii_of(t.subrange(i, j))] + groups_between(t, j, hi)
    } else {
        groups_between(t, i + 1, hi)
    }
}

#[via_fn]
proof fn groups_between_dec(t: Seq<char>, i: int, hi: int) {
    if 0 <= i && i < hi && is_digit_char(t[i]) {
        lemma_digit_end_bounds(t, i + 1, hi);
    }
}

/// All digit groups found inside digit runs from position `i` on.
pub open spec fn runs_from(t: Seq<char>, i: int) -> Seq<Seq<char>>
    decreases t.len() - i,
    via runs_from_dec
{
    if i < 0 || i >= t.len() {
        Seq::empty()
    } else if starts_run(t, i) {
        let j = run_end(t, i + 1);
        groups_between(t, i, j) + runs_from(t, j)
    } else {
        runs_from(t, i + 1)
    }
}

#[via_fn]
proof fn runs_from_dec(t: Seq<char>, i: int) {
    if 0 <= i && i < t.len() && starts_run(t, i) {
        lemma_run_end_bounds(t, i + 1);
    }
}

/// The ASCII digit groups of every digit run in the text, left to right.
pub open spec fn spec_digit_runs(t: Seq<char>) -> Seq<Seq<char>> {
    runs_from(t, 0)
}

proof fn lemma_run_end_all_class(t: Seq<char>, i: int)
    requires
        0 <= i <= t.len(),
        forall|j: int| i <= j < t.len() ==> in_run_class(#[trigger] t[j]),
    ensures
        run_end(t, i) == t.len(),
    decreases t.len() - i,
{
    if i < t.len() {
        lemma_run_end_all_class(t, i + 1);
    }
}

proof fn lemma_digit_end_all_digits(t: Seq<char>, i: int)
    requires
        0 <= i <= t.len(),
        forall|j: int| i <= j < t.len() ==> is_digit_char(#[trigger] t[j]),
    ensures
        digit_end(t, i, t.len() as int) == t.len(),
    decreases t.len() - i,
{
    if i < t.len() {
        lemma_digit_end_all_digits(t, i + 1);
    }
}

/// A purely numeric token of two or more digits smashes to the all-zero key
/// of its length: all numbers with the same digit count share one map entry.
pub proof fn lemma_number_smashes_to_zeroes(t: Seq<char>)
    requires
        t.len() >= 2,
        forall|i: int| 0 <= i < t.len() ==> is_digit_char(#[trigger] t[i]),
    ensures
        spec_smash(t) == Seq::new(t.len(), |i: int| '0'),
{
    lemma_run_end_all_class(t, 1);
    assert(starts_run(t, 0));
    assert(smash_from(t, t.len() as int) =~= Seq::<char>::empty());
    assert(t.subrange(0, t.len() as int) =~= t);
    assert(spec_smash(t) == t.subrange(0, t.len() as int).map(|_k: int, c: char| zeroed_char(c))
        + smash_from(t, t.len() as int));
    assert(spec_smash(t) =~= Seq::new(t.len(), |i: int| '0'));
}

/// A purely numeric token of two or more digits is one digit run forming a
/// single group: the whole token, standardized to ASCII digits. The
/// frequency estimate for the token is therefore computed from the token
/// alone.
pub proof fn lemma_number_is_single_group(t: Seq<char>)
    requires
        t.len() >= 2,
        forall|i: int| 0 <= i < t.len() ==> is_digit_char(#[trigger] t[i]),
    ensures
        spec_digit_runs(t) == seq![ascii_of(t)],
{
    lemma_run_end_all_class(t, 1);
    lemma_digit_end_all_digits(t, 1);
    assert(starts_run(t, 0));
    assert(t.subrange(0, t.len() as int) =~= t);
    assert(groups_between(t, t.len() as int, t.len() as int) =~= Seq::<Seq<char>>::empty());
    assert(groups_between(t, 0, t.len() as int) == seq![
        ascii_of(t.subrange(0, t.len() as int)),
    ] + groups_between(t, t.len() as int, t.len() as int));
    assert(groups_between(t, 0, t.len() as int) =~= seq![ascii_of(t)]);
    assert(runs_from(t, t.len() as int) =~= Seq::<Seq<char>>::empty());
    assert(spec_digit_runs(t) == groups_between(t, 0, t.len() as int) + runs_from(
        t,
        t.len() as int,
    ));
    assert(spec_digit_runs(t) =~= seq![ascii_of(t)]);
}

/// Recognizes digit runs inside tokens. Stateless apart from the digit block
/// table it carries.
#[derive(Clone)]
pub struct NumberHandler {
    digit_blocks: Vec<u32>,
}

impl NumberHandler {
    /// The handler holds exactly the decimal-digit block table.
    pub closed spec fn wf(&self) -> bool {
        self.digit_blocks@ == nd_block_starts()
    }

    /// Creates a handler with the digit block table in place.
    pub fn new() -> (r: Self)
        ensures
            r.wf(),
    {
        NumberHandler { digit_blocks: nd_block_start_vec() }
    }

    fn is_digit(&self, c: char) -> (r: bool)
        requires
            self.wf(),
        ensures
            r == is_digit_char(c),
    {
        digit_value_of(&self.digit_blocks, c).is_some()
    }

    fn in_class(&self, c: char) -> (r: bool)
        requires
            self.wf(),
        ensures
            r == in_run_class(c),
    {
        self.is_digit(c) || c == '.' || c == ','
    }

    fn find_run_end(&self, t: &Vec<char>, start: usize) -> (j: usize)
        requires
            self.wf(),
            start <= t@.len(),
        ensures
            j == run_end(t@, start as int),
            start <= j <= t@.len(),
    {
        let n = t.len();
        let mut j = start;
        while j < n && self.in_class(t[j])
            invariant
                self.wf(),
                start <= j <= n,
                n == t@.len(),
                run_end(t@, start as int) == run_end(t@, j as int),
            decreases n - j,
        {
            j = j + 1;
        }
        j
    }

    fn find_digit_end(&self, t: &Vec<char>, start: usize, hi: usize) -> (j: usize)
        requires
            self.wf(),
            start <= hi <= t@.len(),
        ensures
            j == digit_end(t@, start as int, hi as int),
            start <= j <= hi,
    {
        let mut j = start;
        while j < hi && self.is_digit(t[j])
            invariant
                self.wf(),
                start <= j <= hi <= t@.len(),
                digit_end(t@, start as int, hi as int) == digit_end(t@, j as int, hi as int),
            decreases hi - j,
        {
            j = j + 1;
        }
        j
    }

    /// Replaces the digits of every digit run with zeroes, so the model does
    /// not need to distinguish the frequencies of thousands of numbers.
    pub fn smash_numbers(&self, text: &str) -> (r: String)
        requires
            self.wf(),
        ensures
            r@ == spec_smash(text@),
    {
        let t = chars_vec(text);
        let n = t.len();
        let mut out: Vec<char> = Vec::new();
        let mut i: usize = 0;
        while i < n
            invariant
                self.wf(),
                i <= n,
                n == t@.len(),
                t@ == text@,
                out@ + smash_from(t@, i as int) == smash_from(t@, 0),
            decreases n - i,
        {
            if self.is_digit(t[i]) && i + 1 < n && self.in_class(t[i + 1]) {
                let j = self.find_run_end(&t, i + 1);
                let ghost prev = out@;
                let mut k = i;
                while k < j
                    invariant
                        self.wf(),
                        i <= k <= j <= n,
                        n == t@.len(),
                        out@ == prev + t@.subrange(i as int, k as int).map(
                            |_q: int, c: char| zeroed_char(c),
                        ),
                    decreases j - k,
                {
                    if self.is_digit(t[k]) {
                        out.push('0');
                    } else {
                        out.push(t[k]);
                    }
                    assert(out@ =~= prev + t@.subrange(i as int, k + 1 as int).map(
                        |_q: int, c: char| zeroed_char(c),
                    ));
                    k = k + 1;
                }
                i = j;
            } else {
                out.push(t[i]);
                i = i + 1;
            }
            assert(out@ + smash_from(t@, i as int) =~= smash_from(t@, 0));
        }
        string_from_chars(&out)
    }

    fn ascii_group(&self, t: &Vec<char>, lo: usize, hi: usize) -> (r: String)
        requires
            self.wf(),
            lo <= hi <= t@.len(),
        ensures
            r@ == ascii_of(t@.subrange(lo as int, hi as int)),
    {
        let mut g: Vec<char> = Vec::new();
        let mut q = lo;
        while q < hi
            invariant
                self.wf(),
                lo <= q <= hi <= t@.len(),
                g@ == t@.subrange(lo as int, q as int).map(
                    |_k: int, c: char| digit_char_ascii(c),
                ),
            decreases hi - q,
        {
            match digit_value_of(&self.digit_blocks, t[q]) {
                Some(d) => {
                    g.push(ascii_digit(d));
                },
                None => {
                    g.push(t[q]);
                },
            }
            assert(g@ =~= t@.subrange(lo as int, q + 1 as int).map(
                |_k: int, c: char| digit_char_ascii(c),
            ));
            q = q + 1;
        }
        string_from_chars(&g)
    }

    /// The ASCII digit groups of every digit run in the text, left to right.
    ///
    /// Each group is a maximal stretch of digit characters inside a run,
    /// with every digit glyph converted to its plain ASCII equivalent.
    pub fn digit_runs(&self, text: &str) -> (r: Vec<String>)
        requires
            self.wf(),
        ensures
            r.deep_view() == spec_digit_runs(text@),
    {
        let t = chars_vec(text);
        let n = t.len();
        let mut out: Vec<String> = Vec::new();
        let mut i: usize = 0;
        while i < n
            invariant
                self.wf(),
                i <= n,
                n == t@.len(),
                t@ == text@,
                out.deep_view() + runs_from(t@, i as int) == runs_from(t@, 0),
            decreases n - i,
        {
            if self.is_digit(t[i]) && i + 1 < n && self.in_class(t[i + 1]) {
                let j = self.find_run_end(&t, i + 1);
                let mut k = i;
                while k < j
                    invariant
                        self.wf(),
                        i <= k <= j <= n,
                        n == t@.len(),
                        out.deep_view() + groups_between(t@, k as int, j as int) + runs_from(
                            t@,
                            j as int,
                        ) == runs_from(t@, 0),
                    decreases j - k,
                {
                    if self.is_digit(t[k]) {
                        let d = self.find_digit_end(&t, k + 1, j);
                        let ghost prev = out.deep_view();
                        let group = self.ascii_group(&t, k, d);
                        out.push(group);
                        assert(out.deep_view() =~= prev.push(group@));
                        assert(out.deep_view() + groups_between(t@, d as int, j as int)
                            + runs_from(t@, j as int) =~= runs_from(t@, 0));
                        k = d;
                    } else {
                        k = k + 1;
                    }
                }
                i = j;
            } else {
                i = i + 1;
            }
            assert(out.deep_view() + runs_from(t@, i as int) =~= runs_from(t@, 0));
        }
        assert(out.deep_view() =~= runs_from(t@, 0));
        out
    }
}

} // verus!
