//! The per-language standardizer: a fixed pipeline of Unicode normalization,
//! transliteration, mark removal, case folding and diacritic correction that
//! maps equivalent word forms onto one canonical spelling.

use vstd::prelude::*;

use unicode_normalization::UnicodeNormalization;

use crate::errors::WordFreqError;
use crate::language::Script;
use crate::language::resolve_tag;
use crate::language::spec_resolve;
use crate::strutil::chars_vec;
use crate::strutil::string_from_chars;
use crate::transliterate::Transliteration;
use crate::transliterate::Transliterater;
use crate::transliterate::spec_transliterate;

verus! {

/// The Unicode normalization a standardizer starts with.
#[derive(Clone, Copy, Debug, PartialEq, Eq, Structural)]
pub enum NormalForm {
    /// Canonical composition, used for Latin, Greek and Cyrillic scripts.
    NFC,
    /// Compatibility composition, used for all other scripts.
    NFKC,
}

/// Which diacritic spelling of s and t with marks below is preferred.
#[derive(Clone, Copy, Debug, PartialEq, Eq, Structural)]
pub enum DiacriticsUnder {
    /// Cedillas, preferred in Turkish and its relatives.
    Cedillas,
    /// Commas, preferred in Romanian.
    Commas,
    /// Leave the letters alone.
    Plain,
}

/// What the canonical (NFC) normalization of the outside Unicode tables
/// returns for the given characters.
pub uninterp spec fn nfc_of(s: Seq<char>) -> Seq<char>;

/// What the compatibility (NFKC) normalization of the outside Unicode tables
/// returns for the given characters.
pub uninterp spec fn nfkc_of(s: Seq<char>) -> Seq<char>;

/// What full Unicode default case folding returns for the given characters.
pub uninterp spec fn folded_of(s: Seq<char>) -> Seq<char>;

/// The given characters with every nonspacing mark and the tatweel removed.
pub uninterp spec fn marks_removed(s: Seq<char>) -> Seq<char>;

/// Relies on `unicode_normalization`'s `nfc`: canonical decomposition
/// followed by canonical composition, a pure function of the characters.
#[verifier::external_body]
fn nfc(text: &str) -> (r: String)
    ensures
        r@ == nfc_of(text@),
{
    text.nfc().collect()
}

/// Relies on `unicode_normalization`'s `nfkc`: compatibility decomposition
/// followed by canonical composition, a pure function of the characters.
#[verifier::external_body]
fn nfkc(text: &str) -> (r: String)
    ensures
        r@ == nfkc_of(text@),
{
    text.nfkc().collect()
}

/// Relies on `caseless::default_case_fold_str`: full Unicode default case
/// folding, a pure function of the characters.
#[verifier::external_body]
fn case_fold(text: &str) -> (r: String)
    ensures
        r@ == folded_of(text@),
{
    caseless::default_case_fold_str(text)
}

/// Relies on `regex`'s `Regex::new` and `Regex::replace_all`: replacing every
/// match of the fixed character class of nonspacing marks (`\p{Mn}`) and the
/// tatweel with nothing removes exactly those characters. The pattern is
/// constant and always compiles.
#[verifier::external_body]
fn strip_marks(text: &str) -> (r: String)
    ensures
        r@ == marks_removed(text@),
{
    let re = regex::Regex::new(r"[\p{Mn}\u{0640}]").unwrap();
    re.replace_all(text, "").to_string()
}

/// Capital dotted I lowered to dotted i, capital I lowered to dotless i;
/// anything else kept.
pub open spec fn dotted_i_char(c: char) -> char {
    if c == '\u{130}' {
        'i'
    } else if c == 'I' {
        '\u{131}'
    } else {
        c
    }
}

/// Comma-below s and t replaced by their cedilla forms; anything else kept.
pub open spec fn cedilla_char(c: char) -> char {
    if c == '\u{219}' {
        '\u{15F}'
    } else if c == '\u{21B}' {
        '\u{163}'
    } else {
        c
    }
}

/// Cedilla s and t replaced by their comma-below forms; anything else kept.
pub open spec fn comma_char(c: char) -> char {
    if c == '\u{15F}' {
        '\u{219}'
    } else if c == '\u{163}' {
        '\u{21B}'
    } else {
        c
    }
}

/// The Unicode normalization chosen for a script.
pub open spec fn spec_normal_form(script: Script) -> NormalForm {
    if script == Script::Latn || script == Script::Grek || script == Script::Cyrl {
        NormalForm::NFC
    } else {
        NormalForm::NFKC
    }
}

/// Whether a script is an abjad whose marks are stripped.
pub open spec fn spec_mark_removal(script: Script) -> bool {
    script == Script::Arab || script == Script::Hebr
}

/// Whether a language distinguishes dotted and dotless I when folding case.
pub open spec fn spec_dotless_i(primary: Seq<char>) -> bool {
    primary == "tr"@ || primary == "az"@ || primary == "kk"@
}

/// Which diacritic spelling a language prefers.
pub open spec fn spec_diacritics(primary: Seq<char>) -> DiacriticsUnder {
    if primary == "tr"@ || primary == "az"@ || primary == "kk"@ {
        DiacriticsUnder::Cedillas
    } else if primary == "ro"@ {
        DiacriticsUnder::Commas
    } else {
        DiacriticsUnder::Plain
    }
}

/// The transliteration a language needs for script unification, if any.
pub open spec fn spec_translit(primary: Seq<char>) -> Option<Transliteration> {
    if primary == "sr"@ {
        Some(Transliteration::SrLatn)
    } else if primary == "az"@ {
        Some(Transliteration::AzLatn)
    } else {
        None
    }
}

/// A per-language standardizer. Built once from a language tag and immutable
/// afterwards; applying it runs the fixed pipeline over the text.
#[derive(Clone)]
pub struct Standardizer {
    normal_form: NormalForm,
    mark_removal: bool,
    dotless_i: bool,
    diacritics_under: DiacriticsUnder,
    transliterater: Option<Transliterater>,
}

impl Standardizer {
    /// The Unicode normalization this standardizer starts with.
    pub closed spec fn normal_form(&self) -> NormalForm {
        self.normal_form
    }

    /// Whether nonspacing marks and the tatweel are stripped.
    pub closed spec fn mark_removal(&self) -> bool {
        self.mark_removal
    }

    /// Whether case folding keeps the dotted/dotless I distinction.
    pub closed spec fn dotless_i(&self) -> bool {
        self.dotless_i
    }

    /// Which diacritic spelling is restored after folding.
    pub closed spec fn diacritics_under(&self) -> DiacriticsUnder {
        self.diacritics_under
    }

    /// The transliteration variant applied, if any.
    pub closed spec fn translit_variant(&self) -> Option<Transliteration> {
        match self.transliterater {
            Some(t) => Some(t.variant()),
            None => None,
        }
    }

    /// Creates the standardizer for a language tag.
    ///
    /// Fails exactly when the tag is not one the resolution table knows.
    pub fn new(language_tag: &str) -> (r: Result<Self, WordFreqError>)
        ensures
            match r {
                Ok(s) => {
                    &&& spec_resolve(language_tag@) matches Some(pq)
                    &&& s.normal_form() == spec_normal_form(pq.1)
                    &&& s.mark_removal() == spec_mark_removal(pq.1)
                    &&& s.dotless_i() == spec_dotless_i(pq.0)
                    &&& s.diacritics_under() == spec_diacritics(pq.0)
                    &&& s.translit_variant() == spec_translit(pq.0)
                },
                Err(e) => {
                    &&& spec_resolve(language_tag@) is None
                    &&& e matches WordFreqError::UnknownLanguageTag { tag } && tag@
                        == language_tag@
                },
            },
    {
        let resolved = match resolve_tag(language_tag) {
            Some(p) => p,
            None => {
                return Err(
                    WordFreqError::UnknownLanguageTag { tag: language_tag.to_owned() },
                );
            },
        };
        let (primary, script) = resolved;

        let normal_form = if matches!(script, Script::Latn | Script::Grek | Script::Cyrl) {
            NormalForm::NFC
        } else {
            NormalForm::NFKC
        };

        let mark_removal = matches!(script, Script::Arab | Script::Hebr);

        let dotless_i = crate::strutil::str_eq(primary.as_str(), "tr") || crate::strutil::str_eq(
            primary.as_str(),
            "az",
        ) || crate::strutil::str_eq(primary.as_str(), "kk");

        let diacritics_under = if dotless_i {
            DiacriticsUnder::Cedillas
        } else if crate::strutil::str_eq(primary.as_str(), "ro") {
            DiacriticsUnder::Commas
        } else {
            DiacriticsUnder::Plain
        };

        let transliterater = if crate::strutil::str_eq(primary.as_str(), "sr") {
            Some(Transliterater::new(Transliteration::SrLatn))
        } else if crate::strutil::str_eq(primary.as_str(), "az") {
            Some(Transliterater::new(Transliteration::AzLatn))
        } else {
            None
        };

        Ok(
            Standardizer {
                normal_form,
                mark_removal,
                dotless_i,
                diacritics_under,
                transliterater,
            },
        )
    }

    /// What the whole pipeline turns a text into.
    pub open spec fn spec_apply(self, t: Seq<char>) -> Seq<char> {
        let normalized = match self.normal_form() {
            NormalForm::NFC => nfc_of(t),
            NormalForm::NFKC => nfkc_of(t),
        };
        let transliterated = match self.translit_variant() {
            Some(v) => spec_transliterate(v, normalized),
            None => normalized,
        };
        let unmarked = if self.mark_removal() {
            marks_removed(transliterated)
        } else {
            transliterated
        };
        let folded = if self.dotless_i() {
            folded_of(nfc_of(unmarked).map(|_k: int, c: char| dotted_i_char(c)))
        } else {
            folded_of(unmarked)
        };
        match self.diacritics_under() {
            DiacriticsUnder::Cedillas => folded.map(|_k: int, c: char| cedilla_char(c)),
            DiacriticsUnder::Commas => folded.map(|_k: int, c: char| comma_char(c)),
            DiacriticsUnder::Plain => folded,
        }
    }

    /// Standardizes the given text.
    pub fn apply(&self, text: &str) -> (r: String)
        ensures
            r@ == self.spec_apply(text@),
    {
        // Unicode normalization, as needed for the language.
        let normalized = match self.normal_form {
            NormalForm::NFC => nfc(text),
            NormalForm::NFKC => nfkc(text),
        };

        // Script unification for multi-script languages.
        let transliterated = match &self.transliterater {
            Some(tr) => tr.transliterate(normalized.as_str()),
            None => normalized,
        };

        // Mark stripping for abjad scripts.
        let unmarked = if self.mark_removal {
            strip_marks(transliterated.as_str())
        } else {
            transliterated
        };

        // Case folding, plain or dotted-I aware.
        let folded = if self.dotless_i {
            self.casefold_with_i_dots(unmarked.as_str())
        } else {
            case_fold(unmarked.as_str())
        };

        // Diacritic correction.
        match self.diacritics_under {
            DiacriticsUnder::Cedillas => Self::commas_to_cedillas(folded.as_str()),
            DiacriticsUnder::Commas => Self::cedillas_to_commas(folded.as_str()),
            DiacriticsUnder::Plain => folded,
        }
    }

    /// Lowers capital dotted and dotless I the way Turkish and its relatives
    /// expect, then folds the rest.
    fn casefold_with_i_dots(&self, text: &str) -> (r: String)
        ensures
            r@ == folded_of(nfc_of(text@).map(|_k: int, c: char| dotted_i_char(c))),
    {
        let normalized = nfc(text);
        let replaced = map_chars_dotted_i(normalized.as_str());
        case_fold(replaced.as_str())
    }

    /// Rewrites comma-below s and t into the cedilla forms Turkish prefers.
    ///
    /// Only the lowercase letters are rewritten: the text has already been
    /// case-folded.
    fn commas_to_cedillas(text: &str) -> (r: String)
        ensures
            r@ == text@.map(|_k: int, c: char| cedilla_char(c)),
    {
        let t = chars_vec(text);
        let n = t.len();
        let mut out: Vec<char> = Vec::new();
        for i in 0..n
            invariant
                n == t@.len(),
                t@ == text@,
                out@ == t@.subrange(0, i as int).map(|_k: int, c: char| cedilla_char(c)),
        {
            let c = t[i];
            if c == '\u{219}' {
                out.push('\u{15F}');
            } else if c == '\u{21B}' {
                out.push('\u{163}');
            } else {
                out.push(c);
            }
            assert(out@ =~= t@.subrange(0, i + 1 as int).map(|_k: int, c: char| cedilla_char(c)));
        }
        assert(t@.subrange(0, n as int) =~= t@);
        string_from_chars(&out)
    }

    /// Rewrites cedilla s and t into the comma-below forms Romanian prefers.
    ///
    /// Only the lowercase letters are rewritten: the text has already been
    /// case-folded.
    fn cedillas_to_commas(text: &str) -> (r: String)
        ensures
            r@ == text@.map(|_k: int, c: char| comma_char(c)),
    {
        let t = chars_vec(text);
        let n = t.len();
        let mut out: Vec<char> = Vec::new();
        for i in 0..n
            invariant
                n == t@.len(),
                t@ == text@,
                out@ == t@.subrange(0, i as int).map(|_k: int, c: char| comma_char(c)),
        {
            let c = t[i];
            if c == '\u{15F}' {
                out.push('\u{219}');
            } else if c == '\u{163}' {
                out.push('\u{21B}');
            } else {
                out.push(c);
            }
            assert(out@ =~= t@.subrange(0, i + 1 as int).map(|_k: int, c: char| comma_char(c)));
        }
        assert(t@.subrange(0, n as int) =~= t@);
        string_from_chars(&out)
    }
}

/// Rewrites capital dotted I to i and capital I to dotless i.
fn map_chars_dotted_i(text: &str) -> (r: String)
    ensures
        r@ == text@.map(|_k: int, c: char| dotted_i_char(c)),
{
    let t = chars_vec(text);
    let n = t.len();
    let mut out: Vec<char> = Vec::new();
    for i in 0..n
        invariant
            n == t@.len(),
            t@ == text@,
            out@ == t@.subrange(0, i as int).map(|_k: int, c: char| dotted_i_char(c)),
    {
        let c = t[i];
        if c == '\u{130}' {
            out.push('i');
        } else if c == 'I' {
            out.push('\u{131}');
        } else {
            out.push(c);
        }
        assert(out@ =~= t@.subrange(0, i + 1 as int).map(|_k: int, c: char| dotted_i_char(c)));
    }
    assert(t@.subrange(0, n as int) =~= t@);
    string_from_chars(&out)
}

} // verus!
