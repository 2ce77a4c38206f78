//! Parsing the text form of a word list: one word and one weight per line,
//! separated by ASCII whitespace.
//!
//! Lines are split on newline characters, with a trailing carriage return
//! dropped from each line. A line that does not hold exactly two
//! whitespace-separated fields is a format error naming the offending line
//! number and its content.

use vstd::prelude::*;

use crate::errors::WordFreqError;
use crate::strutil::chars_vec;
use crate::strutil::string_from_chars;

verus! {

/// The ASCII whitespace characters line fields are split on.
pub open spec fn is_ascii_ws(c: char) -> bool {
    c == ' ' || c == '\t' || c == '\n' || c == '\u{c}' || c == '\r'
}

/// The first position at or after `i` holding a newline (or the end).
pub open spec fn line_break(t: Seq<char>, i: int) -> int
    decreases t.len() - i,
{
    if i < 0 || i >= t.len() {
        i
    } else if t[i] == '\n' {
        i
    } else {
        line_break(t, i + 1)
    }
}

pub proof fn lemma_line_break_bounds(t: Seq<char>, i: int)
    requires
        0 <= i <= t.len(),
    ensures
        i <= line_break(t, i) <= t.len(),
    decreases t.len() - i,
{
    if i < t.len() && t[i] != '\n' {
        lemma_line_break_bounds(t, i + 1);
    }
}

/// A line with its trailing carriage return dropped. Only a line that was
/// ended by a newline gets this treatment: a final unterminated line keeps
/// its characters as they stand.
pub open spec fn strip_cr(s: Seq<char>) -> Seq<char> {
    if s.len() > 0 && s.last() == '\r' {
        s.drop_last()
    } else {
        s
    }
}

/// The lines of the text from position `i` on.
pub open spec fn lines_from(t: Seq<char>, i: int) -> Seq<Seq<char>>
    decreases t.len() - i + 1,
    via lines_from_dec
{
    if i < 0 || i >= t.len() {
        Seq::empty()
    } else {
        let j = line_break(t, i);
        let line = if j < t.len() {
            strip_cr(t.subrange(i, j))
        } else {
            t.subrange(i, j)
        };
        seq![line] + lines_from(t, j + 1)
    }
}

#[via_fn]
proof fn lines_from_dec(t: Seq<char>, i: int) {
    if 0 <= i && i < t.len() {
        lemma_line_break_bounds(t, i);
    }
}

/// The lines of a whole text.
pub open spec fn spec_lines(t: Seq<char>) -> Seq<Seq<char>> {
    lines_from(t, 0)
}

/// The first position at or after `i` holding whitespace (or the end).
pub open spec fn token_end(line: Seq<char>, i: int) -> int
    decreases line.len() - i,
{
    if i < 0 || i >= line.len() {
        i
    } else if is_ascii_ws(line[i]) {
        i
    } else {
        token_end(line, i + 1)
    }
}

pub proof fn lemma_token_end_bounds(line: Seq<char>, i: int)
    requires
        0 <= i <= line.len(),
    ensures
        i <= token_end(line, i) <= line.len(),
    decreases line.len() - i,
{
    if i < line.len() && !is_ascii_ws(line[i]) {
        lemma_token_end_bounds(line, i + 1);
    }
}

/// The whitespace-separated fields of the line from position `i` on.
pub open spec fn tokens_from(line: Seq<char>, i: int) -> Seq<Seq<char>>
    decreases line.len() - i,
    via tokens_from_dec
{
    if i < 0 || i >= line.len() {
        Seq::empty()
    } else if is_ascii_ws(line[i]) {
        tokens_from(line, i + 1)
    } else {
        let j = token_end(line, i + 1);
        seq![line.subrange(i, j)] + tokens_from(line, j)
    }
}

#[via_fn]
proof fn tokens_from_dec(line: Seq<char>, i: int) {
    if 0 <= i && i < line.len() && !is_ascii_ws(line[i]) {
        lemma_token_end_bounds(line, i + 1);
    }
}

/// The whitespace-separated fields of a whole line.
pub open spec fn spec_tokens(line: Seq<char>) -> Seq<Seq<char>> {
    tokens_from(line, 0)
}

/// What parsing the lines of a word list yields.
pub enum LinesOutcome {
    /// Every line held exactly a word and a weight field.
    Parsed(Seq<(Seq<char>, Seq<char>)>),
    /// The line with this number (counted from zero) and content did not.
    Bad(int, Seq<char>),
}

/// The (word, weight field) pairs of the lines from index `idx` on.
pub open spec fn pairs_of_lines(lines: Seq<Seq<char>>, idx: int) -> LinesOutcome
    decreases lines.len() - idx,
{
    if idx < 0 || idx >= lines.len() {
        LinesOutcome::Parsed(Seq::empty())
    } else {
        let toks = spec_tokens(lines[idx]);
        if toks.len() != 2 {
            LinesOutcome::Bad(idx, lines[idx])
        } else {
            match pairs_of_lines(lines, idx + 1) {
                LinesOutcome::Parsed(rest) => LinesOutcome::Parsed(
                    seq![(toks[0], toks[1])] + rest,
                ),
                other => other,
            }
        }
    }
}

/// What parsing a whole word-list text yields.
pub open spec fn spec_word_weight_lines(t: Seq<char>) -> LinesOutcome {
    pairs_of_lines(spec_lines(t), 0)
}

/// The characters view of a list of (word, weight field) string pairs.
pub open spec fn string_pairs_view(pairs: Seq<(String, String)>) -> Seq<(Seq<char>, Seq<char>)> {
    pairs.map(|_i: int, p: (String, String)| (p.0@, p.1@))
}

/// Splits a text into its lines.
fn split_lines(text: &str) -> (r: Vec<String>)
    ensures
        r.deep_view() == spec_lines(text@),
{
    let t = chars_vec(text);
    let n = t.len();
    let mut out: Vec<String> = Vec::new();
    let mut i: usize = 0;
    while i < n
        invariant
            i <= n,
            n == t@.len(),
            t@ == text@,
            out.deep_view() + lines_from(t@, i as int) == spec_lines(text@),
        decreases n - i,
    {
        let ghost before = out.deep_view();
        let mut j = i;
        while j < n && t[j] != '\n'
            invariant
                i <= j <= n,
                n == t@.len(),
                line_break(t@, i as int) == line_break(t@, j as int),
            decreases n - j,
        {
            j = j + 1;
        }
        let end = if j < n && j > i && t[j - 1] == '\r' {
            j - 1
        } else {
            j
        };
        let mut line: Vec<char> = Vec::new();
        let mut k = i;
        while k < end
            invariant
                i <= k <= end <= n,
                n == t@.len(),
                line@ == t@.subrange(i as int, k as int),
            decreases end - k,
        {
            line.push(t[k]);
            assert(line@ =~= t@.subrange(i as int, k + 1 as int));
            k = k + 1;
        }
        out.push(string_from_chars(&line));
        proof {
            if j < n {
                assert(line@ =~= strip_cr(t@.subrange(i as int, j as int)));
            } else {
                assert(line@ =~= t@.subrange(i as int, j as int));
            }
            assert(out.deep_view() =~= before.push(line@));
            assert(out.deep_view() + lines_from(t@, j + 1 as int) =~= spec_lines(text@));
        }
        if j < n {
            i = j + 1;
        } else {
            proof {
                assert(lines_from(t@, j + 1 as int) =~= lines_from(t@, n as int));
            }
            i = n;
        }
    }
    assert(out.deep_view() =~= spec_lines(text@));
    out
}

/// Splits a line into its whitespace-separated fields.
fn split_fields(line: &str) -> (r: Vec<String>)
    ensures
        r.deep_view() == spec_tokens(line@),
{
    let t = chars_vec(line);
    let n = t.len();
    let mut out: Vec<String> = Vec::new();
    let mut i: usize = 0;
    while i < n
        invariant
            i <= n,
            n == t@.len(),
            t@ == line@,
            out.deep_view() + tokens_from(t@, i as int) == spec_tokens(line@),
        decreases n - i,
    {
        let c = t[i];
        if c == ' ' || c == '\t' || c == '\n' || c == '\u{c}' || c == '\r' {
            i = i + 1;
        } else {
            let ghost before = out.deep_view();
            let mut j = i + 1;
            while j < n && !(t[j] == ' ' || t[j] == '\t' || t[j] == '\n' || t[j] == '\u{c}'
                || t[j] == '\r')
                invariant
                    i + 1 <= j <= n,
                    n == t@.len(),
                    token_end(t@, i + 1 as int) == token_end(t@, j as int),
                decreases n - j,
            {
                j = j + 1;
            }
            let mut field: Vec<char> = Vec::new();
            let mut k = i;
            while k < j
                invariant
                    i <= k <= j <= n,
                    n == t@.len(),
                    field@ == t@.subrange(i as int, k as int),
                decreases j - k,
            {
                field.push(t[k]);
                assert(field@ =~= t@.subrange(i as int, k + 1 as int));
                k = k + 1;
            }
            out.push(string_from_chars(&field));
            proof {
                assert(out.deep_view() =~= before.push(field@));
                assert(out.deep_view() + tokens_from(t@, j as int) =~= spec_tokens(line@));
            }
            i = j;
        }
        assert(out.deep_view() + tokens_from(t@, i as int) =~= spec_tokens(line@));
    }
    assert(out.deep_view() =~= spec_tokens(line@));
    out
}

/// Parses the text form of a word list into (word, weight field) pairs.
///
/// Fails exactly on the first line that does not hold two fields, naming
/// that line's number (counted from zero) and content.
pub fn word_weight_lines(text: &str) -> (r: Result<Vec<(String, String)>, WordFreqError>)
    ensures
        match r {
            Ok(v) => spec_word_weight_lines(text@) == LinesOutcome::Parsed(string_pairs_view(v@)),
            Err(e) => {
                &&& e matches WordFreqError::MalformedLine { line_number, content }
                &&& spec_word_weight_lines(text@) == LinesOutcome::Bad(
                    line_number as int,
                    content@,
                )
            },
        },
{
    let lines = split_lines(text);
    let ghost lv = lines.deep_view();
    let n = lines.len();
    let mut out: Vec<(String, String)> = Vec::new();
    proof {
        match pairs_of_lines(lv, 0) {
            LinesOutcome::Parsed(rest) => {
                assert(string_pairs_view(out@) + rest =~= rest);
            },
            _ => {},
        }
    }
    let mut idx: usize = 0;
    while idx < n
        invariant
            idx <= n,
            n == lv.len(),
            lv == lines.deep_view(),
            spec_word_weight_lines(text@) == pairs_of_lines(lv, 0),
            match pairs_of_lines(lv, idx as int) {
                LinesOutcome::Parsed(rest) => pairs_of_lines(lv, 0) == LinesOutcome::Parsed(
                    string_pairs_view(out@) + rest,
                ),
                other => pairs_of_lines(lv, 0) == other,
            },
        decreases n - idx,
    {
        let fields = split_fields(lines[idx].as_str());
        if fields.len() != 2 {
            return Err(
                WordFreqError::MalformedLine { line_number: idx, content: lines[idx].clone() },
            );
        }
        let ghost acc_before = string_pairs_view(out@);
        let word = fields[0].clone();
        let weight = fields[1].clone();
        out.push((word, weight));
        proof {
            assert(fields.deep_view()[0] == word@ && fields.deep_view()[1] == weight@);
            assert(string_pairs_view(out@) =~= acc_before + seq![(word@, weight@)]);
            match pairs_of_lines(lv, idx + 1 as int) {
                LinesOutcome::Parsed(rest) => {
                    assert(string_pairs_view(out@) + rest =~= acc_before + (seq![(word@, weight@)]
                        + rest));
                },
                _ => {},
            }
        }
        idx = idx + 1;
    }
    assert(string_pairs_view(out@) + Seq::<(Seq<char>, Seq<char>)>::empty() =~= string_pairs_view(
        out@,
    ));
    Ok(out)
}

} // verus!
