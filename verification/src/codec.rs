//! The flat binary form of the model's map: a plain concatenation of
//! records, each a length-prefixed UTF-8 word followed by its stored 32-bit
//! weight pattern, with no header and no trailing marker. The end of the
//! bytes is the end of the map.
//!
//! A record is: eight little-endian bytes holding the word's UTF-8 length,
//! the word's UTF-8 bytes, and four little-endian bytes holding the stored
//! pattern.

use vstd::prelude::*;

use vstd::bytes::spec_u32_to_le_bytes;
use vstd::bytes::spec_u32_from_le_bytes;
use vstd::bytes::spec_u64_to_le_bytes;
use vstd::bytes::spec_u64_from_le_bytes;
use vstd::bytes::u32_from_le_bytes;
use vstd::bytes::u32_to_le_bytes;
use vstd::bytes::u64_from_le_bytes;
use vstd::bytes::u64_to_le_bytes;
use vstd::slice::slice_subrange;
use vstd::slice::slice_to_vec;
use vstd::string::StrSliceExecFns;
use vstd::utf8::decode_utf8;
use vstd::utf8::encode_utf8;
use vstd::utf8::valid_utf8;

use crate::errors::WordFreqError;
use crate::model::pairs_view;
use crate::strutil::string_from_utf8;

verus! {

/// One record: length prefix, word bytes, stored pattern.
pub open spec fn encode_record(word: Seq<char>, bits: u32) -> Seq<u8> {
    spec_u64_to_le_bytes(encode_utf8(word).len() as u64) + encode_utf8(word)
        + spec_u32_to_le_bytes(bits)
}

/// The records of all pairs, in order, concatenated with nothing between
/// them.
pub open spec fn encode_records(pairs: Seq<(Seq<char>, u32)>) -> Seq<u8>
    decreases pairs.len(),
{
    if pairs.len() == 0 {
        Seq::empty()
    } else {
        encode_record(pairs.first().0, pairs.first().1) + encode_records(pairs.drop_first())
    }
}

/// What parsing a byte sequence as records yields.
pub enum ParseOutcome {
    /// Every record was read; these are the pairs, in order.
    Parsed(Seq<(Seq<char>, u32)>),
    /// The bytes ended in the middle of a record, or a length prefix overran
    /// the remaining bytes.
    Truncated,
    /// A record's word bytes are not valid UTF-8.
    BadWord,
}

/// Reads records until the bytes are exhausted.
pub open spec fn parse_records(bytes: Seq<u8>) -> ParseOutcome
    decreases bytes.len(),
{
    if bytes.len() == 0 {
        ParseOutcome::Parsed(Seq::empty())
    } else if bytes.len() < 8 {
        ParseOutcome::Truncated
    } else {
        let n = spec_u64_from_le_bytes(bytes.subrange(0, 8)) as int;
        if bytes.len() < 8 + n + 4 {
            ParseOutcome::Truncated
        } else {
            let word_bytes = bytes.subrange(8, 8 + n);
            if !valid_utf8(word_bytes) {
                ParseOutcome::BadWord
            } else {
                let bits = spec_u32_from_le_bytes(bytes.subrange(8 + n, 8 + n + 4));
                match parse_records(bytes.skip(8 + n + 4)) {
                    ParseOutcome::Parsed(rest) => ParseOutcome::Parsed(
                        seq![(decode_utf8(word_bytes), bits)] + rest,
                    ),
                    other => other,
                }
            }
        }
    }
}

/// Encoding and then parsing gives back exactly the pairs that went in.
///
/// The length bound only rules out words whose encoding could not carry an
/// eight-byte length prefix; every word held in memory satisfies it.
pub proof fn lemma_parse_encode(pairs: Seq<(Seq<char>, u32)>)
    requires
        forall|i: int| 0 <= i < pairs.len() ==> (#[trigger] encode_utf8(pairs[i].0)).len()
            <= u64::MAX,
    ensures
        parse_records(encode_records(pairs)) == ParseOutcome::Parsed(pairs),
    decreases pairs.len(),
{
    broadcast use vstd::utf8::encode_utf8_valid_utf8;
    broadcast use vstd::utf8::encode_utf8_decode_utf8;

    vstd::bytes::lemma_auto_spec_u64_to_from_le_bytes();
    vstd::bytes::lemma_auto_spec_u32_to_from_le_bytes();
    if pairs.len() == 0 {
        assert(pairs =~= Seq::<(Seq<char>, u32)>::empty());
        assert(encode_records(pairs) =~= Seq::<u8>::empty());
    } else {
        let word = pairs.first().0;
        let bits = pairs.first().1;
        let wb = encode_utf8(word);
        let n = wb.len() as int;
        let rest = encode_records(pairs.drop_first());
        let bytes = encode_records(pairs);
        assert(pairs.first() == pairs[0]);
        assert(encode_utf8(pairs[0].0).len() <= u64::MAX);
        assert((n as u64) as int == n);
        assert(bytes =~= spec_u64_to_le_bytes(n as u64) + wb + spec_u32_to_le_bytes(bits) + rest);
        assert(bytes.subrange(0, 8) =~= spec_u64_to_le_bytes(n as u64));
        assert(spec_u64_from_le_bytes(bytes.subrange(0, 8)) == n as u64);
        assert(n <= u64::MAX);
        assert(bytes.len() == 12 + n + rest.len());
        assert(bytes.subrange(8, 8 + n) =~= wb);
        assert(bytes.subrange(8 + n, 8 + n + 4) =~= spec_u32_to_le_bytes(bits));
        assert(bytes.skip(8 + n + 4) =~= rest);
        lemma_parse_encode(pairs.drop_first());
        vstd::utf8::encode_utf8_decode_utf8(word);
        assert(decode_utf8(bytes.subrange(8, 8 + n)) == word);
        assert(parse_records(bytes) == ParseOutcome::Parsed(
            seq![(word, bits)] + pairs.drop_first(),
        ));
        assert(seq![(word, bits)] + pairs.drop_first() =~= pairs);
        assert(parse_records(encode_records(pairs)) == ParseOutcome::Parsed(pairs));
    }
}

/// Serializes a list of (word, pattern) entries into the flat record form.
pub fn encode_entries(entries: &Vec<(String, u32)>) -> (r: Vec<u8>)
    ensures
        r@ == encode_records(pairs_view(entries@)),
        forall|i: int| 0 <= i < entries@.len() ==> (#[trigger] encode_utf8(
            pairs_view(entries@)[i].0,
        )).len() <= u64::MAX,
{
    let ghost all = pairs_view(entries@);
    let mut bytes: Vec<u8> = Vec::new();
    proof {
        assert(all.skip(0) =~= all);
        assert(bytes@ + encode_records(all) =~= encode_records(all));
    }
    let n = entries.len();
    let mut i: usize = 0;
    while i < n
        invariant
            i <= n,
            n == entries@.len(),
            all == pairs_view(entries@),
            bytes@ + encode_records(all.skip(i as int)) == encode_records(all),
            forall|j: int| 0 <= j < i ==> (#[trigger] encode_utf8(all[j].0)).len() <= u64::MAX,
        decreases n - i,
    {
        let ghost before = bytes@;
        let mut word_bytes = entries[i].0.as_str().as_bytes_vec();
        let word_len = word_bytes.len();
        assert(encode_utf8(all[i as int].0).len() <= u64::MAX);
        let mut prefix = u64_to_le_bytes(word_len as u64);
        let mut pattern = u32_to_le_bytes(entries[i].1);
        bytes.append(&mut prefix);
        bytes.append(&mut word_bytes);
        bytes.append(&mut pattern);
        proof {
            let pair = all[i as int];
            assert(bytes@ =~= before + encode_record(pair.0, pair.1));
            assert(all.skip(i as int).first() == pair);
            assert(all.skip(i as int).drop_first() =~= all.skip(i + 1 as int));
            assert(bytes@ + encode_records(all.skip(i + 1 as int)) =~= encode_records(all));
        }
        i = i + 1;
    }
    assert(all.skip(n as int) =~= Seq::empty());
    assert(bytes@ =~= encode_records(all));
    bytes
}

/// Parses the flat record form back into (word, pattern) entries.
///
/// Fails exactly when the bytes end inside a record, a length prefix
/// overruns what is left, or a word is not valid UTF-8.
pub fn parse_entries(bytes: &[u8]) -> (r: Result<Vec<(String, u32)>, WordFreqError>)
    ensures
        match r {
            Ok(v) => parse_records(bytes@) == ParseOutcome::Parsed(pairs_view(v@)),
            Err(e) => match e {
                WordFreqError::TruncatedRecord => parse_records(bytes@) is Truncated,
                WordFreqError::InvalidWordBytes => parse_records(bytes@) is BadWord,
                _ => false,
            },
        },
{
    let len = bytes.len();
    let mut out: Vec<(String, u32)> = Vec::new();
    proof {
        assert(bytes@.skip(0) =~= bytes@);
        match parse_records(bytes@) {
            ParseOutcome::Parsed(rest) => {
                assert(pairs_view(out@) + rest =~= rest);
            },
            _ => {},
        }
    }
    let mut pos: usize = 0;
    while pos < len
        invariant
            pos <= len,
            len == bytes@.len(),
            match parse_records(bytes@.skip(pos as int)) {
                ParseOutcome::Parsed(rest) => parse_records(bytes@) == ParseOutcome::Parsed(
                    pairs_view(out@) + rest,
                ),
                other => parse_records(bytes@) == other,
            },
        decreases len - pos,
    {
        let ghost tail = bytes@.skip(pos as int);
        if len - pos < 8 {
            return Err(WordFreqError::TruncatedRecord);
        }
        let n64 = u64_from_le_bytes(slice_subrange(bytes, pos, pos + 8));
        proof {
            assert(bytes@.subrange(pos as int, pos + 8 as int) =~= tail.subrange(0, 8));
        }
        let rem = len - (pos + 8);
        if n64 > rem as u64 {
            assert(parse_records(tail) is Truncated);
            return Err(WordFreqError::TruncatedRecord);
        }
        let n = n64 as usize;
        if rem - n < 4 {
            assert(parse_records(tail) is Truncated);
            return Err(WordFreqError::TruncatedRecord);
        }
        let word_slice = slice_subrange(bytes, pos + 8, pos + 8 + n);
        proof {
            assert(bytes@.subrange(pos + 8 as int, pos + 8 + n as int) =~= tail.subrange(
                8,
                8 + n as int,
            ));
        }
        let word = match string_from_utf8(slice_to_vec(word_slice)) {
            Some(w) => w,
            None => {
                assert(parse_records(tail) is BadWord);
                return Err(WordFreqError::InvalidWordBytes);
            },
        };
        let bits = u32_from_le_bytes(slice_subrange(bytes, pos + 8 + n, pos + 8 + n + 4));
        proof {
            assert(bytes@.subrange(pos + 8 + n as int, pos + 8 + n + 4 as int) =~= tail.subrange(
                8 + n as int,
                8 + n + 4 as int,
            ));
        }
        let ghost acc_before = pairs_view(out@);
        out.push((word, bits));
        pos = pos + 8 + n + 4;
        proof {
            assert(tail.skip(8 + n + 4 as int) =~= bytes@.skip(pos as int));
            assert(pairs_view(out@) =~= acc_before + seq![(word@, bits)]);
            match parse_records(bytes@.skip(pos as int)) {
                ParseOutcome::Parsed(rest) => {
                    assert(parse_records(tail) == ParseOutcome::Parsed(
                        seq![(word@, bits)] + rest,
                    ));
                    assert(pairs_view(out@) + rest =~= acc_before + (seq![(word@, bits)] + rest));
                },
                _ => {},
            }
        }
    }
    assert(bytes@.skip(pos as int) =~= Seq::<u8>::empty());
    assert(pairs_view(out@) + Seq::<(Seq<char>, u32)>::empty() =~= pairs_view(out@));
    Ok(out)
}

} // verus!
