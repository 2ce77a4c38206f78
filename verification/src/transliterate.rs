//! Character-substitution transliteration: rewriting one script's letters
//! into another's, character by character.
//!
//! Two Cyrillic-to-Latin variants are provided, one tuned for Serbian and one
//! for Azerbaijani. Characters without a table entry pass through unchanged,
//! so transliteration is a total, order-preserving rewrite.

use vstd::prelude::*;

use crate::strutil::chars_vec;
use crate::strutil::string_from_chars;

verus! {

/// The supported transliteration variants.
#[derive(Clone, Copy, PartialEq, Eq, Structural)]
pub enum Transliteration {
    /// Cyrillic to Latin, as written for Serbian.
    SrLatn,
    /// Cyrillic to Latin, as written for Azerbaijani.
    AzLatn,
}

/// What one character becomes under the given variant.
pub open spec fn translit_char(tr: Transliteration, c: char) -> Seq<char> {
    match tr {
        Transliteration::SrLatn => sr_latn_char(c),
        Transliteration::AzLatn => az_latn_char(c),
    }
}

/// The transliteration of the text from position `i` on.
pub open spec fn translit_from(tr: Transliteration, t: Seq<char>, i: int) -> Seq<char>
    decreases t.len() - i,
{
    if i < 0 || i >= t.len() {
        Seq::empty()
    } else {
        translit_char(tr, t[i]) + translit_from(tr, t, i + 1)
    }
}

/// The transliteration of a whole text.
pub open spec fn spec_transliterate(tr: Transliteration, t: Seq<char>) -> Seq<char> {
    translit_from(tr, t, 0)
}

/// A stateless character-substitution transliterator for one variant.
#[derive(Clone)]
pub struct Transliterater {
    variant: Transliteration,
}

impl Transliterater {
    /// The variant this transliterator applies.
    pub closed spec fn variant(&self) -> Transliteration {
        self.variant
    }

    /// Creates a transliterator for the given variant.
    pub fn new(tr: Transliteration) -> (r: Self)
        ensures
            r.variant() == tr,
    {
        Transliterater { variant: tr }
    }

    /// Applies the substitution table to every character of the text.
    pub fn transliterate(&self, text: &str) -> (r: String)
        ensures
            r@ == spec_transliterate(self.variant(), text@),
    {
        let t = chars_vec(text);
        let n = t.len();
        let mut out: Vec<char> = Vec::new();
        let mut i: usize = 0;
        while i < n
            invariant
                i <= n,
                n == t@.len(),
                t@ == text@,
                out@ + translit_from(self.variant(), t@, i as int) == spec_transliterate(
                    self.variant(),
                    t@,
                ),
            decreases n - i,
        {
            match self.variant {
                Transliteration::SrLatn => push_sr_latn(&mut out, t[i]),
                Transliteration::AzLatn => push_az_latn(&mut out, t[i]),
            }
            i = i + 1;
            assert(out@ + translit_from(self.variant(), t@, i as int) =~= spec_transliterate(
                self.variant(),
                t@,
            ));
        }
        assert(out@ =~= spec_transliterate(self.variant(), t@));
        string_from_chars(&out)
    }
}

/// What one character becomes under the Cyrillic-to-Latin mapping used for Serbian.
pub open spec fn sr_latn_char(c: char) -> Seq<char> {
    if c == '\u{410}' {
        seq!['A']
    } else if c == '\u{430}' {
        seq!['a']
    } else if c == '\u{411}' {
        seq!['B']
    } else if c == '\u{431}' {
        seq!['b']
    } else if c == '\u{412}' {
        seq!['V']
    } else if c == '\u{432}' {
        seq!['v']
    } else if c == '\u{413}' {
        seq!['G']
    } else if c == '\u{433}' {
        seq!['g']
    } else if c == '\u{414}' {
        seq!['D']
    } else if c == '\u{434}' {
        seq!['d']
    } else if c == '\u{402}' {
        seq!['\u{110}']
    } else if c == '\u{452}' {
        seq!['\u{111}']
    } else if c == '\u{415}' {
        seq!['E']
    } else if c == '\u{435}' {
        seq!['e']
    } else if c == '\u{416}' {
        seq!['\u{17D}']
    } else if c == '\u{436}' {
        seq!['\u{17E}']
    } else if c == '\u{417}' {
        seq!['Z']
    } else if c == '\u{437}' {
        seq!['z']
    } else if c == '\u{418}' {
        seq!['I']
    } else if c == '\u{438}' {
        seq!['i']
    } else if c == '\u{408}' {
        seq!['J']
    } else if c == '\u{458}' {
        seq!['j']
    } else if c == '\u{41A}' {
        seq!['K']
    } else if c == '\u{43A}' {
        seq!['k']
    } else if c == '\u{41B}' {
        seq!['L']
    } else if c == '\u{43B}' {
        seq!['l']
    } else if c == '\u{409}' {
        seq!['L', 'j']
    } else if c == '\u{459}' {
        seq!['l', 'j']
    } else if c == '\u{41C}' {
        seq!['M']
    } else if c == '\u{43C}' {
        seq!['m']
    } else if c == '\u{41D}' {
        seq!['N']
    } else if c == '\u{43D}' {
        seq!['n']
    } else if c == '\u{40A}' {
        seq!['N', 'j']
    } else if c == '\u{45A}' {
        seq!['n', 'j']
    } else if c == '\u{41E}' {
        seq!['O']
    } else if c == '\u{43E}' {
        seq!['o']
    } else if c == '\u{41F}' {
        seq!['P']
    } else if c == '\u{43F}' {
        seq!['p']
    } else if c == '\u{420}' {
        seq!['R']
    } else if c == '\u{440}' {
        seq!['r']
    } else if c == '\u{421}' {
        seq!['S']
    } else if c == '\u{441}' {
        seq!['s']
    } else if c == '\u{422}' {
        seq!['T']
    } else if c == '\u{442}' {
        seq!['t']
    } else if c == '\u{40B}' {
        seq!['\u{106}']
    } else if c == '\u{45B}' {
        seq!['\u{107}']
    } else if c == '\u{423}' {
        seq!['U']
    } else if c == '\u{443}' {
        seq!['u']
    } else if c == '\u{424}' {
        seq!['F']
    } else if c == '\u{444}' {
        seq!['f']
    } else if c == '\u{425}' {
        seq!['H']
    } else if c == '\u{445}' {
        seq!['h']
    } else if c == '\u{426}' {
        seq!['C']
    } else if c == '\u{446}' {
        seq!['c']
    } else if c == '\u{427}' {
        seq!['\u{10C}']
    } else if c == '\u{447}' {
        seq!['\u{10D}']
    } else if c == '\u{40F}' {
        seq!['D', '\u{17E}']
    } else if c == '\u{45F}' {
        seq!['d', '\u{17E}']
    } else if c == '\u{428}' {
        seq!['\u{160}']
    } else if c == '\u{448}' {
        seq!['\u{161}']
    } else if c == '\u{401}' {
        seq!['J', 'o']
    } else if c == '\u{451}' {
        seq!['j', 'o']
    } else if c == '\u{419}' {
        seq!['J']
    } else if c == '\u{439}' {
        seq!['j']
    } else if c == '\u{429}' {
        seq!['\u{160}', '\u{10D}']
    } else if c == '\u{449}' {
        seq!['\u{161}', '\u{10D}']
    } else if c == '\u{42A}' {
        Seq::empty()
    } else if c == '\u{44A}' {
        Seq::empty()
    } else if c == '\u{42B}' {
        seq!['Y']
    } else if c == '\u{44B}' {
        seq!['y']
    } else if c == '\u{42C}' {
        seq!['\'']
    } else if c == '\u{44C}' {
        seq!['\'']
    } else if c == '\u{42D}' {
        seq!['E']
    } else if c == '\u{44D}' {
        seq!['e']
    } else if c == '\u{42E}' {
        seq!['J', 'u']
    } else if c == '\u{44E}' {
        seq!['j', 'u']
    } else if c == '\u{42F}' {
        seq!['J', 'a']
    } else if c == '\u{44F}' {
        seq!['j', 'a']
    } else if c == '\u{40E}' {
        seq!['\u{16C}']
    } else if c == '\u{45E}' {
        seq!['\u{16D}']
    } else if c == '\u{404}' {
        seq!['J', 'e']
    } else if c == '\u{454}' {
        seq!['j', 'e']
    } else if c == '\u{406}' {
        seq!['I']
    } else if c == '\u{456}' {
        seq!['i']
    } else if c == '\u{407}' {
        seq!['\u{CF}']
    } else if c == '\u{457}' {
        seq!['\u{EF}']
    } else if c == '\u{490}' {
        seq!['G']
    } else if c == '\u{491}' {
        seq!['g']
    } else if c == '\u{405}' {
        seq!['D', 'z']
    } else if c == '\u{455}' {
        seq!['d', 'z']
    } else if c == '\u{403}' {
        seq!['\u{1F4}']
    } else if c == '\u{453}' {
        seq!['\u{1F5}']
    } else if c == '\u{40C}' {
        seq!['\u{1E30}']
    } else if c == '\u{45C}' {
        seq!['\u{1E31}']
    } else {
        seq![c]
    }
}

/// What one character becomes under the Cyrillic-to-Latin mapping used for Azerbaijani.
pub open spec fn az_latn_char(c: char) -> Seq<char> {
    if c == '\u{410}' {
        seq!['A']
    } else if c == '\u{430}' {
        seq!['a']
    } else if c == '\u{411}' {
        seq!['B']
    } else if c == '\u{431}' {
        seq!['b']
    } else if c == '\u{412}' {
        seq!['V']
    } else if c == '\u{432}' {
        seq!['v']
    } else if c == '\u{413}' {
        seq!['Q']
    } else if c == '\u{433}' {
        seq!['q']
    } else if c == '\u{414}' {
        seq!['D']
    } else if c == '\u{434}' {
        seq!['d']
    } else if c == '\u{402}' {
        seq!['\u{110}']
    } else if c == '\u{452}' {
        seq!['\u{111}']
    } else if c == '\u{415}' {
        seq!['E']
    } else if c == '\u{435}' {
        seq!['e']
    } else if c == '\u{416}' {
        seq!['J']
    } else if c == '\u{436}' {
        seq!['j']
    } else if c == '\u{417}' {
        seq!['Z']
    } else if c == '\u{437}' {
        seq!['z']
    } else if c == '\u{418}' {
        seq!['\u{130}']
    } else if c == '\u{438}' {
        seq!['i']
    } else if c == '\u{408}' {
        seq!['Y']
    } else if c == '\u{458}' {
        seq!['y']
    } else if c == '\u{41A}' {
        seq!['K']
    } else if c == '\u{43A}' {
        seq!['k']
    } else if c == '\u{41B}' {
        seq!['L']
    } else if c == '\u{43B}' {
        seq!['l']
    } else if c == '\u{409}' {
        seq!['L', 'j']
    } else if c == '\u{459}' {
        seq!['l', 'j']
    } else if c == '\u{41C}' {
        seq!['M']
    } else if c == '\u{43C}' {
        seq!['m']
    } else if c == '\u{41D}' {
        seq!['N']
    } else if c == '\u{43D}' {
        seq!['n']
    } else if c == '\u{40A}' {
        seq!['N', 'j']
    } else if c == '\u{45A}' {
        seq!['n', 'j']
    } else if c == '\u{41E}' {
        seq!['O']
    } else if c == '\u{43E}' {
        seq!['o']
    } else if c == '\u{41F}' {
        seq!['P']
    } else if c == '\u{43F}' {
        seq!['p']
    } else if c == '\u{420}' {
        seq!['R']
    } else if c == '\u{440}' {
        seq!['r']
    } else if c == '\u{421}' {
        seq!['S']
    } else if c == '\u{441}' {
        seq!['s']
    } else if c == '\u{422}' {
        seq!['T']
    } else if c == '\u{442}' {
        seq!['t']
    } else if c == '\u{40B}' {
        seq!['\u{106}']
    } else if c == '\u{45B}' {
        seq!['\u{107}']
    } else if c == '\u{423}' {
        seq!['U']
    } else if c == '\u{443}' {
        seq!['u']
    } else if c == '\u{424}' {
        seq!['F']
    } else if c == '\u{444}' {
        seq!['f']
    } else if c == '\u{425}' {
        seq!['X']
    } else if c == '\u{445}' {
        seq!['x']
    } else if c == '\u{426}' {
        seq!['C']
    } else if c == '\u{446}' {
        seq!['c']
    } else if c == '\u{427}' {
        seq!['\u{C7}']
    } else if c == '\u{447}' {
        seq!['\u{E7}']
    } else if c == '\u{40F}' {
        seq!['D', '\u{17E}']
    } else if c == '\u{45F}' {
        seq!['d', '\u{17E}']
    } else if c == '\u{428}' {
        seq!['\u{15E}']
    } else if c == '\u{448}' {
        seq!['\u{15F}']
    } else if c == '\u{401}' {
        seq!['J', 'o']
    } else if c == '\u{451}' {
        seq!['j', 'o']
    } else if c == '\u{419}' {
        seq!['J']
    } else if c == '\u{439}' {
        seq!['j']
    } else if c == '\u{429}' {
        seq!['\u{160}', '\u{10D}']
    } else if c == '\u{449}' {
        seq!['\u{161}', '\u{10D}']
    } else if c == '\u{42A}' {
        Seq::empty()
    } else if c == '\u{44A}' {
        Seq::empty()
    } else if c == '\u{42B}' {
        seq!['I']
    } else if c == '\u{44B}' {
        seq!['\u{131}']
    } else if c == '\u{42C}' {
        seq!['\'']
    } else if c == '\u{44C}' {
        seq!['\'']
    } else if c == '\u{42D}' {
        seq!['E']
    } else if c == '\u{44D}' {
        seq!['e']
    } else if c == '\u{42E}' {
        seq!['J', 'u']
    } else if c == '\u{44E}' {
        seq!['j', 'u']
    } else if c == '\u{42F}' {
        seq!['J', 'a']
    } else if c == '\u{44F}' {
        seq!['j', 'a']
    } else if c == '\u{40E}' {
        seq!['\u{16C}']
    } else if c == '\u{45E}' {
        seq!['\u{16D}']
    } else if c == '\u{404}' {
        seq!['J', 'e']
    } else if c == '\u{454}' {
        seq!['j', 'e']
    } else if c == '\u{406}' {
        seq!['I']
    } else if c == '\u{456}' {
        seq!['i']
    } else if c == '\u{407}' {
        seq!['\u{CF}']
    } else if c == '\u{457}' {
        seq!['\u{EF}']
    } else if c == '\u{490}' {
        seq!['G']
    } else if c == '\u{491}' {
        seq!['g']
    } else if c == '\u{405}' {
        seq!['D', 'z']
    } else if c == '\u{455}' {
        seq!['d', 'z']
    } else if c == '\u{403}' {
        seq!['\u{1F4}']
    } else if c == '\u{453}' {
        seq!['\u{1F5}']
    } else if c == '\u{40C}' {
        seq!['\u{1E30}']
    } else if c == '\u{45C}' {
        seq!['\u{1E31}']
    } else if c == '\u{4B8}' {
        seq!['C']
    } else if c == '\u{4B9}' {
        seq!['c']
    } else if c == '\u{4D8}' {
        seq!['\u{18F}']
    } else if c == '\u{4D9}' {
        seq!['\u{259}']
    } else if c == '\u{492}' {
        seq!['\u{11E}']
    } else if c == '\u{493}' {
        seq!['\u{11F}']
    } else if c == '\u{4BA}' {
        seq!['H']
    } else if c == '\u{4BB}' {
        seq!['h']
    } else if c == '\u{4E8}' {
        seq!['\u{D6}']
    } else if c == '\u{4E9}' {
        seq!['\u{F6}']
    } else if c == '\u{49C}' {
        seq!['G']
    } else if c == '\u{49D}' {
        seq!['g']
    } else if c == '\u{4AE}' {
        seq!['\u{DC}']
    } else if c == '\u{4AF}' {
        seq!['\u{FC}']
    } else {
        seq![c]
    }
}

/// Appends the Serbian-variant image of one character.
fn push_sr_latn(out: &mut Vec<char>, c: char)
    ensures
        final(out)@ == old(out)@ + sr_latn_char(c),
{
    if c == '\u{410}' {
        out.push('A');
    } else if c == '\u{430}' {
        out.push('a');
    } else if c == '\u{411}' {
        out.push('B');
    } else if c == '\u{431}' {
        out.push('b');
    } else if c == '\u{412}' {
        out.push('V');
    } else if c == '\u{432}' {
        out.push('v');
    } else if c == '\u{413}' {
        out.push('G');
    } else if c == '\u{433}' {
        out.push('g');
    } else if c == '\u{414}' {
        out.push('D');
    } else if c == '\u{434}' {
        out.push('d');
    } else if c == '\u{402}' {
        out.push('\u{110}');
    } else if c == '\u{452}' {
        out.push('\u{111}');
    } else if c == '\u{415}' {
        out.push('E');
    } else if c == '\u{435}' {
        out.push('e');
    } else if c == '\u{416}' {
        out.push('\u{17D}');
    } else if c == '\u{436}' {
        out.push('\u{17E}');
    } else if c == '\u{417}' {
        out.push('Z');
    } else if c == '\u{437}' {
        out.push('z');
    } else if c == '\u{418}' {
        out.push('I');
    } else if c == '\u{438}' {
        out.push('i');
    } else if c == '\u{408}' {
        out.push('J');
    } else if c == '\u{458}' {
        out.push('j');
    } else if c == '\u{41A}' {
        out.push('K');
    } else if c == '\u{43A}' {
        out.push('k');
    } else if c == '\u{41B}' {
        out.push('L');
    } else if c == '\u{43B}' {
        out.push('l');
    } else if c == '\u{409}' {
        out.push('L');
        out.push('j');
    } else if c == '\u{459}' {
        out.push('l');
        out.push('j');
    } else if c == '\u{41C}' {
        out.push('M');
    } else if c == '\u{43C}' {
        out.push('m');
    } else if c == '\u{41D}' {
        out.push('N');
    } else if c == '\u{43D}' {
        out.push('n');
    } else if c == '\u{40A}' {
        out.push('N');
        out.push('j');
    } else if c == '\u{45A}' {
        out.push('n');
        out.push('j');
    } else if c == '\u{41E}' {
        out.push('O');
    } else if c == '\u{43E}' {
        out.push('o');
    } else if c == '\u{41F}' {
        out.push('P');
    } else if c == '\u{43F}' {
        out.push('p');
    } else if c == '\u{420}' {
        out.push('R');
    } else if c == '\u{440}' {
        out.push('r');
    } else if c == '\u{421}' {
        out.push('S');
    } else if c == '\u{441}' {
        out.push('s');
    } else if c == '\u{422}' {
        out.push('T');
    } else if c == '\u{442}' {
        out.push('t');
    } else if c == '\u{40B}' {
        out.push('\u{106}');
    } else if c == '\u{45B}' {
        out.push('\u{107}');
    } else if c == '\u{423}' {
        out.push('U');
    } else if c == '\u{443}' {
        out.push('u');
    } else if c == '\u{424}' {
        out.push('F');
    } else if c == '\u{444}' {
        out.push('f');
    } else if c == '\u{425}' {
        out.push('H');
    } else if c == '\u{445}' {
        out.push('h');
    } else if c == '\u{426}' {
        out.push('C');
    } else if c == '\u{446}' {
        out.push('c');
    } else if c == '\u{427}' {
        out.push('\u{10C}');
    } else if c == '\u{447}' {
        out.push('\u{10D}');
    } else if c == '\u{40F}' {
        out.push('D');
        out.push('\u{17E}');
    } else if c == '\u{45F}' {
        out.push('d');
        out.push('\u{17E}');
    } else if c == '\u{428}' {
        out.push('\u{160}');
    } else if c == '\u{448}' {
        out.push('\u{161}');
    } else if c == '\u{401}' {
        out.push('J');
        out.push('o');
    } else if c == '\u{451}' {
        out.push('j');
        out.push('o');
    } else if c == '\u{419}' {
        out.push('J');
    } else if c == '\u{439}' {
        out.push('j');
    } else if c == '\u{429}' {
        out.push('\u{160}');
        out.push('\u{10D}');
    } else if c == '\u{449}' {
        out.push('\u{161}');
        out.push('\u{10D}');
    } else if c == '\u{42A}' {
    } else if c == '\u{44A}' {
    } else if c == '\u{42B}' {
        out.push('Y');
    } else if c == '\u{44B}' {
        out.push('y');
    } else if c == '\u{42C}' {
        out.push('\'');
    } else if c == '\u{44C}' {
        out.push('\'');
    } else if c == '\u{42D}' {
        out.push('E');
    } else if c == '\u{44D}' {
        out.push('e');
    } else if c == '\u{42E}' {
        out.push('J');
        out.push('u');
    } else if c == '\u{44E}' {
        out.push('j');
        out.push('u');
    } else if c == '\u{42F}' {
        out.push('J');
        out.push('a');
    } else if c == '\u{44F}' {
        out.push('j');
        out.push('a');
    } else if c == '\u{40E}' {
        out.push('\u{16C}');
    } else if c == '\u{45E}' {
        out.push('\u{16D}');
    } else if c == '\u{404}' {
        out.push('J');
        out.push('e');
    } else if c == '\u{454}' {
        out.push('j');
        out.push('e');
    } else if c == '\u{406}' {
        out.push('I');
    } else if c == '\u{456}' {
        out.push('i');
    } else if c == '\u{407}' {
        out.push('\u{CF}');
    } else if c == '\u{457}' {
        out.push('\u{EF}');
    } else if c == '\u{490}' {
        out.push('G');
    } else if c == '\u{491}' {
        out.push('g');
    } else if c == '\u{405}' {
        out.push('D');
        out.push('z');
    } else if c == '\u{455}' {
        out.push('d');
        out.push('z');
    } else if c == '\u{403}' {
        out.push('\u{1F4}');
    } else if c == '\u{453}' {
        out.push('\u{1F5}');
    } else if c == '\u{40C}' {
        out.push('\u{1E30}');
    } else if c == '\u{45C}' {
        out.push('\u{1E31}');
    } else {
        out.push(c);
    }
    assert(out@ =~= old(out)@ + sr_latn_char(c));
}

/// Appends the Azerbaijani-variant image of one character.
fn push_az_latn(out: &mut Vec<char>, c: char)
    ensures
        final(out)@ == old(out)@ + az_latn_char(c),
{
    if c == '\u{410}' {
        out.push('A');
    } else if c == '\u{430}' {
        out.push('a');
    } else if c == '\u{411}' {
        out.push('B');
    } else if c == '\u{431}' {
        out.push('b');
    } else if c == '\u{412}' {
        out.push('V');
    } else if c == '\u{432}' {
        out.push('v');
    } else if c == '\u{413}' {
        out.push('Q');
    } else if c == '\u{433}' {
        out.push('q');
    } else if c == '\u{414}' {
        out.push('D');
    } else if c == '\u{434}' {
        out.push('d');
    } else if c == '\u{402}' {
        out.push('\u{110}');
    } else if c == '\u{452}' {
        out.push('\u{111}');
    } else if c == '\u{415}' {
        out.push('E');
    } else if c == '\u{435}' {
        out.push('e');
    } else if c == '\u{416}' {
        out.push('J');
    } else if c == '\u{436}' {
        out.push('j');
    } else if c == '\u{417}' {
        out.push('Z');
    } else if c == '\u{437}' {
        out.push('z');
    } else if c == '\u{418}' {
        out.push('\u{130}');
    } else if c == '\u{438}' {
        out.push('i');
    } else if c == '\u{408}' {
        out.push('Y');
    } else if c == '\u{458}' {
        out.push('y');
    } else if c == '\u{41A}' {
        out.push('K');
    } else if c == '\u{43A}' {
        out.push('k');
    } else if c == '\u{41B}' {
        out.push('L');
    } else if c == '\u{43B}' {
        out.push('l');
    } else if c == '\u{409}' {
        out.push('L');
        out.push('j');
    } else if c == '\u{459}' {
        out.push('l');
        out.push('j');
    } else if c == '\u{41C}' {
        out.push('M');
    } else if c == '\u{43C}' {
        out.push('m');
    } else if c == '\u{41D}' {
        out.push('N');
    } else if c == '\u{43D}' {
        out.push('n');
    } else if c == '\u{40A}' {
        out.push('N');
        out.push('j');
    } else if c == '\u{45A}' {
        out.push('n');
        out.push('j');
    } else if c == '\u{41E}' {
        out.push('O');
    } else if c == '\u{43E}' {
        out.push('o');
    } else if c == '\u{41F}' {
        out.push('P');
    } else if c == '\u{43F}' {
        out.push('p');
    } else if c == '\u{420}' {
        out.push('R');
    } else if c == '\u{440}' {
        out.push('r');
    } else if c == '\u{421}' {
        out.push('S');
    } else if c == '\u{441}' {
        out.push('s');
    } else if c == '\u{422}' {
        out.push('T');
    } else if c == '\u{442}' {
        out.push('t');
    } else if c == '\u{40B}' {
        out.push('\u{106}');
    } else if c == '\u{45B}' {
        out.push('\u{107}');
    } else if c == '\u{423}' {
        out.push('U');
    } else if c == '\u{443}' {
        out.push('u');
    } else if c == '\u{424}' {
        out.push('F');
    } else if c == '\u{444}' {
        out.push('f');
    } else if c == '\u{425}' {
        out.push('X');
    } else if c == '\u{445}' {
        out.push('x');
    } else if c == '\u{426}' {
        out.push('C');
    } else if c == '\u{446}' {
        out.push('c');
    } else if c == '\u{427}' {
        out.push('\u{C7}');
    } else if c == '\u{447}' {
        out.push('\u{E7}');
    } else if c == '\u{40F}' {
        out.push('D');
        out.push('\u{17E}');
    } else if c == '\u{45F}' {
        out.push('d');
        out.push('\u{17E}');
    } else if c == '\u{428}' {
        out.push('\u{15E}');
    } else if c == '\u{448}' {
        out.push('\u{15F}');
    } else if c == '\u{401}' {
        out.push('J');
        out.push('o');
    } else if c == '\u{451}' {
        out.push('j');
        out.push('o');
    } else if c == '\u{419}' {
        out.push('J');
    } else if c == '\u{439}' {
        out.push('j');
    } else if c == '\u{429}' {
        out.push('\u{160}');
        out.push('\u{10D}');
    } else if c == '\u{449}' {
        out.push('\u{161}');
        out.push('\u{10D}');
    } else if c == '\u{42A}' {
    } else if c == '\u{44A}' {
    } else if c == '\u{42B}' {
        out.push('I');
    } else if c == '\u{44B}' {
        out.push('\u{131}');
    } else if c == '\u{42C}' {
        out.push('\'');
    } else if c == '\u{44C}' {
        out.push('\'');
    } else if c == '\u{42D}' {
        out.push('E');
    } else if c == '\u{44D}' {
        out.push('e');
    } else if c == '\u{42E}' {
        out.push('J');
        out.push('u');
    } else if c == '\u{44E}' {
        out.push('j');
        out.push('u');
    } else if c == '\u{42F}' {
        out.push('J');
        out.push('a');
    } else if c == '\u{44F}' {
        out.push('j');
        out.push('a');
    } else if c == '\u{40E}' {
        out.push('\u{16C}');
    } else if c == '\u{45E}' {
        out.push('\u{16D}');
    } else if c == '\u{404}' {
        out.push('J');
        out.push('e');
    } else if c == '\u{454}' {
        out.push('j');
        out.push('e');
    } else if c == '\u{406}' {
        out.push('I');
    } else if c == '\u{456}' {
        out.push('i');
    } else if c == '\u{407}' {
        out.push('\u{CF}');
    } else if c == '\u{457}' {
        out.push('\u{EF}');
    } else if c == '\u{490}' {
        out.push('G');
    } else if c == '\u{491}' {
        out.push('g');
    } else if c == '\u{405}' {
        out.push('D');
        out.push('z');
    } else if c == '\u{455}' {
        out.push('d');
        out.push('z');
    } else if c == '\u{403}' {
        out.push('\u{1F4}');
    } else if c == '\u{453}' {
        out.push('\u{1F5}');
    } else if c == '\u{40C}' {
        out.push('\u{1E30}');
    } else if c == '\u{45C}' {
        out.push('\u{1E31}');
    } else if c == '\u{4B8}' {
        out.push('C');
    } else if c == '\u{4B9}' {
        out.push('c');
    } else if c == '\u{4D8}' {
        out.push('\u{18F}');
    } else if c == '\u{4D9}' {
        out.push('\u{259}');
    } else if c == '\u{492}' {
        out.push('\u{11E}');
    } else if c == '\u{493}' {
        out.push('\u{11F}');
    } else if c == '\u{4BA}' {
        out.push('H');
    } else if c == '\u{4BB}' {
        out.push('h');
    } else if c == '\u{4E8}' {
        out.push('\u{D6}');
    } else if c == '\u{4E9}' {
        out.push('\u{F6}');
    } else if c == '\u{49C}' {
        out.push('G');
    } else if c == '\u{49D}' {
        out.push('g');
    } else if c == '\u{4AE}' {
        out.push('\u{DC}');
    } else if c == '\u{4AF}' {
        out.push('\u{FC}');
    } else {
        out.push(c);
    }
    assert(out@ =~= old(out)@ + az_latn_char(c));
}
} // verus!
