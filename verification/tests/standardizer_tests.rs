use wordfreq::Standardizer;
use wordfreq::Transliteration;
use wordfreq::Transliterater;
use wordfreq::WordFreqError;

#[test]
fn test_case_folding_english() {
    let standardizer = Standardizer::new("en").unwrap();
    assert_eq!(standardizer.apply("Word"), "word");
}

#[test]
fn test_case_folding_german_sharp_s() {
    let standardizer = Standardizer::new("de").unwrap();
    assert_eq!(standardizer.apply("groß"), "gross");
}

#[test]
fn test_case_folding_greek_final_sigma() {
    let standardizer = Standardizer::new("el").unwrap();
    assert_eq!(standardizer.apply("λέξις"), "λέξισ");
}

#[test]
fn test_case_folding_turkish_dotted_i() {
    let standardizer = Standardizer::new("tr").unwrap();
    assert_eq!(standardizer.apply("HAKKINDA İSTANBUL"), "hakkında istanbul");
}

#[test]
fn test_commas_to_cedillas() {
    let standardizer = Standardizer::new("tr").unwrap();
    assert_eq!(standardizer.apply("kișinin"), "kişinin");
}

#[test]
fn test_cedillas_to_commas() {
    let standardizer = Standardizer::new("ro").unwrap();
    assert_eq!(standardizer.apply("ACELAŞI"), "același");
}

#[test]
fn test_nfc_normalization() {
    let standardizer = Standardizer::new("de").unwrap();
    let word = standardizer.apply("natu\u{0308}rlich");
    assert!(word.contains("ü"));
}

#[test]
fn test_nfkc_normalization_japanese() {
    let standardizer = Standardizer::new("ja").unwrap();
    assert_eq!(standardizer.apply("Ｕターン"), "uターン");
}

#[test]
fn test_nfkc_normalization_korean() {
    let standardizer = Standardizer::new("ko").unwrap();
    let word = "\u{1102}\u{1161}\u{11c0}\u{1106}\u{1161}\u{11af}";
    assert_eq!(word.chars().count(), 6);
    let word = standardizer.apply(word);
    assert_eq!(word, "\u{b0b1}\u{b9d0}");
    assert_eq!(word.chars().count(), 2);
}

#[test]
fn test_abjad_mark_removal() {
    let standardizer = Standardizer::new("ar").unwrap();
    assert_eq!(standardizer.apply("كَلِمَة"), "كلمة");
}

#[test]
fn test_abjad_tatweel_removal() {
    let standardizer = Standardizer::new("ar").unwrap();
    assert_eq!(standardizer.apply("الحمــــــد"), "الحمد");
}

#[test]
fn test_serbian_transliteration() {
    let standardizer = Standardizer::new("sr").unwrap();
    assert_eq!(standardizer.apply("схваташ"), "shvataš");
}

#[test]
fn test_serbian_transliteration_russian_loan() {
    let standardizer = Standardizer::new("sr").unwrap();
    assert_eq!(standardizer.apply("культуры"), "kul'tury");
}

#[test]
fn test_azerbaijani_transliteration() {
    let standardizer = Standardizer::new("az").unwrap();
    assert_eq!(standardizer.apply("бағырты"), "bağırtı");
}

#[test]
fn test_unknown_tag_is_rejected() {
    match Standardizer::new("tlh") {
        Err(WordFreqError::UnknownLanguageTag { tag }) => assert_eq!(tag, "tlh"),
        Err(other) => panic!("unexpected error: {other:?}"),
        Ok(_) => panic!("the unknown tag was accepted"),
    }
}

#[test]
fn test_supported_tags_resolve() {
    let tags = [
        "ar", "az", "bg", "bn", "ca", "cs", "da", "de", "el", "en", "es", "fa", "fi", "fil",
        "fr", "he", "hi", "hu", "id", "is", "it", "ja", "kk", "ko", "lt", "lv", "mk", "ms",
        "nb", "nl", "pl", "pt", "ro", "ru", "sh", "sk", "sl", "sr", "sv", "ta", "tr", "uk",
        "ur", "vi", "zh",
    ];
    for tag in tags {
        assert!(Standardizer::new(tag).is_ok(), "{tag}");
    }
}

#[test]
fn test_serbo_croatian_maps_to_serbian_latin() {
    // "sh" resolves to the Serbian primary language in Latin script, so the
    // Cyrillic-to-Latin table still applies.
    let standardizer = Standardizer::new("sh").unwrap();
    assert_eq!(standardizer.apply("схваташ"), "shvataš");
}

#[test]
fn test_transliterater_direct() {
    let tr = Transliterater::new(Transliteration::SrLatn);
    assert_eq!(tr.transliterate("Љубљана"), "Ljubljana");
    assert_eq!(tr.transliterate("од ъ ништа"), "od  ništa");
    let az = Transliterater::new(Transliteration::AzLatn);
    assert_eq!(az.transliterate("гүл"), "qül");
    // Characters outside the table pass through unchanged.
    assert_eq!(tr.transliterate("abc 123"), "abc 123");
}
