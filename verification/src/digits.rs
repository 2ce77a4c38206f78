//! The decimal-digit code point blocks that the number handling treats as
//! digits, and their mapping to plain ASCII digits.
//!
//! Every decimal-digit character sits in a block of ten consecutive code
//! points ordered zero through nine; the table below lists the first code
//! point of each block.

use vstd::prelude::*;

verus! {

/// The first code point of every block of ten consecutive decimal digits.
pub open spec fn nd_block_starts() -> Seq<u32> {
    seq![
        0x30u32, 0x660u32, 0x6F0u32, 0x7C0u32, 0x966u32, 0x9E6u32, 0xA66u32, 0xAE6u32,
        0xB66u32, 0xBE6u32, 0xC66u32, 0xCE6u32, 0xD66u32, 0xDE6u32, 0xE50u32, 0xED0u32,
        0xF20u32, 0x1040u32, 0x1090u32, 0x17E0u32, 0x1810u32, 0x1946u32, 0x19D0u32, 0x1A80u32,
        0x1A90u32, 0x1B50u32, 0x1BB0u32, 0x1C40u32, 0x1C50u32, 0xA620u32, 0xA8D0u32, 0xA900u32,
        0xA9D0u32, 0xA9F0u32, 0xAA50u32, 0xABF0u32, 0xFF10u32, 0x104A0u32, 0x10D30u32, 0x11066u32,
        0x110F0u32, 0x11136u32, 0x111D0u32, 0x112F0u32, 0x11450u32, 0x114D0u32, 0x11650u32, 0x116C0u32,
        0x11730u32, 0x118E0u32, 0x11950u32, 0x11C50u32, 0x11D50u32, 0x11DA0u32, 0x16A60u32, 0x16B50u32,
        0x1D7CEu32, 0x1D7D8u32, 0x1D7E2u32, 0x1D7ECu32, 0x1D7F6u32, 0x1E140u32, 0x1E2F0u32, 0x1E950u32,
        0x1FBF0u32,
    ]
}

/// The digit value a character stands for, if the scan of the block table
/// from position `i` onward finds its block.
pub open spec fn digit_value_from(starts: Seq<u32>, cp: u32, i: int) -> Option<u32>
    decreases starts.len() - i,
{
    if i < 0 || i >= starts.len() {
        None
    } else if starts[i] <= cp < starts[i] + 10 {
        Some((cp - starts[i]) as u32)
    } else {
        digit_value_from(starts, cp, i + 1)
    }
}

/// The digit value a character stands for, or `None` when it is not a
/// decimal-digit character.
pub open spec fn digit_value(c: char) -> Option<u32> {
    digit_value_from(nd_block_starts(), c as u32, 0)
}

/// Whether a character is a decimal digit in any script.
pub open spec fn is_digit_char(c: char) -> bool {
    digit_value(c) is Some
}

/// The ASCII digit character with the given value.
pub open spec fn spec_ascii_digit(d: u32) -> char {
    if d == 0 {
        '0'
    } else if d == 1 {
        '1'
    } else if d == 2 {
        '2'
    } else if d == 3 {
        '3'
    } else if d == 4 {
        '4'
    } else if d == 5 {
        '5'
    } else if d == 6 {
        '6'
    } else if d == 7 {
        '7'
    } else if d == 8 {
        '8'
    } else {
        '9'
    }
}

/// Builds the block table in memory.
pub fn nd_block_start_vec() -> (r: Vec<u32>)
    ensures
        r@ == nd_block_starts(),
{
    let mut v: Vec<u32> = Vec::new();
        v.push(0x30);
        v.push(0x660);
        v.push(0x6F0);
        v.push(0x7C0);
        v.push(0x966);
        v.push(0x9E6);
        v.push(0xA66);
        v.push(0xAE6);
        v.push(0xB66);
        v.push(0xBE6);
        v.push(0xC66);
        v.push(0xCE6);
        v.push(0xD66);
        v.push(0xDE6);
        v.push(0xE50);
        v.push(0xED0);
        v.push(0xF20);
        v.push(0x1040);
        v.push(0x1090);
        v.push(0x17E0);
        v.push(0x1810);
        v.push(0x1946);
        v.push(0x19D0);
        v.push(0x1A80);
        v.push(0x1A90);
        v.push(0x1B50);
        v.push(0x1BB0);
        v.push(0x1C40);
        v.push(0x1C50);
        v.push(0xA620);
        v.push(0xA8D0);
        v.push(0xA900);
        v.push(0xA9D0);
        v.push(0xA9F0);
        v.push(0xAA50);
        v.push(0xABF0);
        v.push(0xFF10);
        v.push(0x104A0);
        v.push(0x10D30);
        v.push(0x11066);
        v.push(0x110F0);
        v.push(0x11136);
        v.push(0x111D0);
        v.push(0x112F0);
        v.push(0x11450);
        v.push(0x114D0);
        v.push(0x11650);
        v.push(0x116C0);
        v.push(0x11730);
        v.push(0x118E0);
        v.push(0x11950);
        v.push(0x11C50);
        v.push(0x11D50);
        v.push(0x11DA0);
        v.push(0x16A60);
        v.push(0x16B50);
        v.push(0x1D7CE);
        v.push(0x1D7D8);
        v.push(0x1D7E2);
        v.push(0x1D7EC);
        v.push(0x1D7F6);
        v.push(0x1E140);
        v.push(0x1E2F0);
        v.push(0x1E950);
        v.push(0x1FBF0);
    assert(v@ =~= nd_block_starts());
    v
}

/// Looks a character up in the block table.
pub fn digit_value_of(starts: &Vec<u32>, c: char) -> (r: Option<u32>)
    requires
        starts@ == nd_block_starts(),
    ensures
        r == digit_value(c),
        r matches Some(d) ==> d < 10,
{
    let cp = c as u32;
    let n = starts.len();
    for i in 0..n
        invariant
            n == starts@.len(),
            starts@ == nd_block_starts(),
            cp == c as u32,
            digit_value(c) == digit_value_from(starts@, cp, i as int),
    {
        let s = starts[i];
        if s <= cp && cp - s < 10 {
            return Some(cp - s);
        }
    }
    None
}

/// The ASCII digit character with the given value.
pub fn ascii_digit(d: u32) -> (r: char)
    requires
        d < 10,
    ensures
        r == spec_ascii_digit(d),
{
    if d == 0 {
        '0'
    } else if d == 1 {
        '1'
    } else if d == 2 {
        '2'
    } else if d == 3 {
        '3'
    } else if d == 4 {
        '4'
    } else if d == 5 {
        '5'
    } else if d == 6 {
        '6'
    } else if d == 7 {
        '7'
    } else if d == 8 {
        '8'
    } else {
        '9'
    }
}

} // verus!
