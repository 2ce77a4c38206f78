//! Resolution of language tags to the primary-language and script pair the
//! standardizer's configuration is decided from.
//!
//! The table covers the language tags that pre-compiled models exist for; an
//! unlisted tag cannot be resolved and standardizer construction fails on it.

use vstd::prelude::*;

use crate::strutil::str_eq;

verus! {

/// The writing-system subtag a language resolves to.
#[derive(Clone, Copy, Debug, PartialEq, Eq, Structural)]
pub enum Script {
    /// The Arab script.
    Arab,
    /// The Beng script.
    Beng,
    /// The Cyrl script.
    Cyrl,
    /// The Deva script.
    Deva,
    /// The Grek script.
    Grek,
    /// The Hans script.
    Hans,
    /// The Hebr script.
    Hebr,
    /// The Jpan script.
    Jpan,
    /// The Kore script.
    Kore,
    /// The Latn script.
    Latn,
    /// The Taml script.
    Taml,
}

/// The (primary language, script) pair a supported language tag resolves to.
pub open spec fn spec_resolve(tag: Seq<char>) -> Option<(Seq<char>, Script)> {
    if tag == "ar"@ {
        Some(("ar"@, Script::Arab))
    } else if tag == "az"@ {
        Some(("az"@, Script::Latn))
    } else if tag == "bg"@ {
        Some(("bg"@, Script::Cyrl))
    } else if tag == "bn"@ {
        Some(("bn"@, Script::Beng))
    } else if tag == "ca"@ {
        Some(("ca"@, Script::Latn))
    } else if tag == "cs"@ {
        Some(("cs"@, Script::Latn))
    } else if tag == "da"@ {
        Some(("da"@, Script::Latn))
    } else if tag == "de"@ {
        Some(("de"@, Script::Latn))
    } else if tag == "el"@ {
        Some(("el"@, Script::Grek))
    } else if tag == "en"@ {
        Some(("en"@, Script::Latn))
    } else if tag == "es"@ {
        Some(("es"@, Script::Latn))
    } else if tag == "fa"@ {
        Some(("fa"@, Script::Arab))
    } else if tag == "fi"@ {
        Some(("fi"@, Script::Latn))
    } else if tag == "fil"@ {
        Some(("fil"@, Script::Latn))
    } else if tag == "fr"@ {
        Some(("fr"@, Script::Latn))
    } else if tag == "he"@ {
        Some(("he"@, Script::Hebr))
    } else if tag == "hi"@ {
        Some(("hi"@, Script::Deva))
    } else if tag == "hu"@ {
        Some(("hu"@, Script::Latn))
    } else if tag == "id"@ {
        Some(("id"@, Script::Latn))
    } else if tag == "is"@ {
        Some(("is"@, Script::Latn))
    } else if tag == "it"@ {
        Some(("it"@, Script::Latn))
    } else if tag == "ja"@ {
        Some(("ja"@, Script::Jpan))
    } else if tag == "kk"@ {
        Some(("kk"@, Script::Cyrl))
    } else if tag == "ko"@ {
        Some(("ko"@, Script::Kore))
    } else if tag == "lt"@ {
        Some(("lt"@, Script::Latn))
    } else if tag == "lv"@ {
        Some(("lv"@, Script::Latn))
    } else if tag == "mk"@ {
        Some(("mk"@, Script::Cyrl))
    } else if tag == "ms"@ {
        Some(("ms"@, Script::Latn))
    } else if tag == "nb"@ {
        Some(("nb"@, Script::Latn))
    } else if tag == "nl"@ {
        Some(("nl"@, Script::Latn))
    } else if tag == "pl"@ {
        Some(("pl"@, Script::Latn))
    } else if tag == "pt"@ {
        Some(("pt"@, Script::Latn))
    } else if tag == "ro"@ {
        Some(("ro"@, Script::Latn))
    } else if tag == "ru"@ {
        Some(("ru"@, Script::Cyrl))
    } else if tag == "sh"@ {
        Some(("sr"@, Script::Latn))
    } else if tag == "sk"@ {
        Some(("sk"@, Script::Latn))
    } else if tag == "sl"@ {
        Some(("sl"@, Script::Latn))
    } else if tag == "sr"@ {
        Some(("sr"@, Script::Cyrl))
    } else if tag == "sv"@ {
        Some(("sv"@, Script::Latn))
    } else if tag == "ta"@ {
        Some(("ta"@, Script::Taml))
    } else if tag == "tr"@ {
        Some(("tr"@, Script::Latn))
    } else if tag == "uk"@ {
        Some(("uk"@, Script::Cyrl))
    } else if tag == "ur"@ {
        Some(("ur"@, Script::Arab))
    } else if tag == "vi"@ {
        Some(("vi"@, Script::Latn))
    } else if tag == "zh"@ {
        Some(("zh"@, Script::Hans))
    } else {
        None
    }
}

/// Resolves a supported language tag to its primary language and script.
pub fn resolve_tag(tag: &str) -> (r: Option<(String, Script)>)
    ensures
        match r {
            Some(p) => spec_resolve(tag@) == Some((p.0@, p.1)),
            None => spec_resolve(tag@) is None,
        },
{
    if str_eq(tag, "ar") {
        Some(("ar".to_owned(), Script::Arab))
    } else if str_eq(tag, "az") {
        Some(("az".to_owned(), Script::Latn))
    } else if str_eq(tag, "bg") {
        Some(("bg".to_owned(), Script::Cyrl))
    } else if str_eq(tag, "bn") {
        Some(("bn".to_owned(), Script::Beng))
    } else if str_eq(tag, "ca") {
        Some(("ca".to_owned(), Script::Latn))
    } else if str_eq(tag, "cs") {
        Some(("cs".to_owned(), Script::Latn))
    } else if str_eq(tag, "da") {
        Some(("da".to_owned(), Script::Latn))
    } else if str_eq(tag, "de") {
        Some(("de".to_owned(), Script::Latn))
    } else if str_eq(tag, "el") {
        Some(("el".to_owned(), Script::Grek))
    } else if str_eq(tag, "en") {
        Some(("en".to_owned(), Script::Latn))
    } else if str_eq(tag, "es") {
        Some(("es".to_owned(), Script::Latn))
    } else if str_eq(tag, "fa") {
        Some(("fa".to_owned(), Script::Arab))
    } else if str_eq(tag, "fi") {
        Some(("fi".to_owned(), Script::Latn))
    } else if str_eq(tag, "fil") {
        Some(("fil".to_owned(), Script::Latn))
    } else if str_eq(tag, "fr") {
        Some(("fr".to_owned(), Script::Latn))
    } else if str_eq(tag, "he") {
        Some(("he".to_owned(), Script::Hebr))
    } else if str_eq(tag, "hi") {
        Some(("hi".to_owned(), Script::Deva))
    } else if str_eq(tag, "hu") {
        Some(("hu".to_owned(), Script::Latn))
    } else if str_eq(tag, "id") {
        Some(("id".to_owned(), Script::Latn))
    } else if str_eq(tag, "is") {
        Some(("is".to_owned(), Script::Latn))
    } else if str_eq(tag, "it") {
        Some(("it".to_owned(), Script::Latn))
    } else if str_eq(tag, "ja") {
        Some(("ja".to_owned(), Script::Jpan))
    } else if str_eq(tag, "kk") {
        Some(("kk".to_owned(), Script::Cyrl))
    } else if str_eq(tag, "ko") {
        Some(("ko".to_owned(), Script::Kore))
    } else if str_eq(tag, "lt") {
        Some(("lt".to_owned(), Script::Latn))
    } else if str_eq(tag, "lv") {
        Some(("lv".to_owned(), Script::Latn))
    } else if str_eq(tag, "mk") {
        Some(("mk".to_owned(), Script::Cyrl))
    } else if str_eq(tag, "ms") {
        Some(("ms".to_owned(), Script::Latn))
    } else if str_eq(tag, "nb") {
        Some(("nb".to_owned(), Script::Latn))
    } else if str_eq(tag, "nl") {
        Some(("nl".to_owned(), Script::Latn))
    } else if str_eq(tag, "pl") {
        Some(("pl".to_owned(), Script::Latn))
    } else if str_eq(tag, "pt") {
        Some(("pt".to_owned(), Script::Latn))
    } else if str_eq(tag, "ro") {
        Some(("ro".to_owned(), Script::Latn))
    } else if str_eq(tag, "ru") {
        Some(("ru".to_owned(), Script::Cyrl))
    } else if str_eq(tag, "sh") {
        Some(("sr".to_owned(), Script::Latn))
    } else if str_eq(tag, "sk") {
        Some(("sk".to_owned(), Script::Latn))
    } else if str_eq(tag, "sl") {
        Some(("sl".to_owned(), Script::Latn))
    } else if str_eq(tag, "sr") {
        Some(("sr".to_owned(), Script::Cyrl))
    } else if str_eq(tag, "sv") {
        Some(("sv".to_owned(), Script::Latn))
    } else if str_eq(tag, "ta") {
        Some(("ta".to_owned(), Script::Taml))
    } else if str_eq(tag, "tr") {
        Some(("tr".to_owned(), Script::Latn))
    } else if str_eq(tag, "uk") {
        Some(("uk".to_owned(), Script::Cyrl))
    } else if str_eq(tag, "ur") {
        Some(("ur".to_owned(), Script::Arab))
    } else if str_eq(tag, "vi") {
        Some(("vi".to_owned(), Script::Latn))
    } else if str_eq(tag, "zh") {
        Some(("zh".to_owned(), Script::Hans))
    } else {
        None
    }
}

} // verus!
