use wordfreq::WordFreq;
use wordfreq::WordFreqError;
use wordfreq::word_weight_lines;

const DIGIT_FREQS: [f32; 10] = [
    0.009, 0.300, 0.175, 0.124, 0.096, 0.078, 0.066, 0.057, 0.050, 0.045,
];

fn benford_freq(text: &str) -> f32 {
    let first_digit = text.chars().next().unwrap().to_digit(10).unwrap() as usize;
    DIGIT_FREQS[first_digit] / 10f32.powi(text.len() as i32 - 1)
}

fn year_freq(text: &str) -> f32 {
    let year = text.parse::<f32>().unwrap();
    let year_log_freq = if year <= 2019.0 {
        0.0083f32.mul_add(-2019.0 + year, -1.9185)
    } else if 2019.0 < year && year <= 2019.0 + 20.0 {
        -1.9185
    } else {
        0.2f32.mul_add(-year + (2019.0 + 20.0), -1.9185)
    };
    let year_prob = 10f32.powf(year_log_freq);
    let not_year_prob = 0.1 * benford_freq(text);
    year_prob + not_year_prob
}

fn digit_freq(runs: &[String]) -> f32 {
    let mut freq = 1.0f32;
    for run in runs {
        if run.len() == 4 {
            freq *= year_freq(run);
        } else {
            freq *= benford_freq(run);
        }
    }
    freq
}

fn word_frequency_in(wf: &WordFreq, word: &str) -> Option<f32> {
    let lk = wf.lookup(word);
    let mut freq = f32::from_bits(lk.stored_bits?);
    if lk.digit_corrected {
        freq *= digit_freq(&lk.digit_runs);
    }
    Some(freq)
}

fn word_frequency(wf: &WordFreq, word: &str) -> f32 {
    word_frequency_in(wf, word)
        .unwrap_or(0.0)
        .max(f32::from_bits(wf.minimum_floor_bits()))
}

fn zipf_to_freq(zipf: f32) -> f32 {
    10f32.powf(zipf - 9.0)
}

fn freq_to_zipf(freq: f32) -> f32 {
    freq.log10() + 9.0
}

fn round2(x: f32) -> f32 {
    (x * 100.0).round() / 100.0
}

fn zipf_frequency(wf: &WordFreq, word: &str) -> f32 {
    let freq_min = zipf_to_freq(f32::from_bits(wf.minimum_floor_bits()));
    let freq = word_frequency_in(wf, word).unwrap_or(0.0).max(freq_min);
    round2(freq_to_zipf(freq))
}

fn build(pairs: &[(&str, f32)]) -> WordFreq {
    let mut map: hashbrown::HashMap<String, f32> = hashbrown::HashMap::new();
    for (w, x) in pairs {
        map.insert((*w).to_string(), *x);
    }
    let sum: f32 = map.values().fold(0.0, |acc, w| acc + w);
    let entries: Vec<(String, u32)> =
        map.iter().map(|(k, v)| (k.clone(), (v / sum).to_bits())).collect();
    WordFreq::new(entries)
}

fn assert_close(a: f32, b: f32) {
    let scale = a.abs().max(b.abs()).max(1e-30);
    assert!((a - b).abs() <= 1e-5 * scale, "{a} != {b}");
}

#[test]
fn test_empty() {
    let wf = WordFreq::new(Vec::new());
    assert_close(word_frequency(&wf, "las"), 0.00);
    assert_close(word_frequency(&wf, "vegas"), 0.00);
}

#[test]
fn test_io() {
    let wf = build(&[("las", 10.0), ("vegas", 30.0)]);
    let model = wf.serialize().unwrap();
    let other = WordFreq::deserialize(&model[..]).unwrap();
    let mut a = wf.entries();
    let mut b = other.entries();
    a.sort();
    b.sort();
    assert_eq!(a, b);
}

#[test]
fn test_example_end_to_end() {
    let text = "las 10\nvegas 30\n";
    let pairs = word_weight_lines(text).unwrap();
    let weights: Vec<(&str, f32)> =
        pairs.iter().map(|(w, x)| (w.as_str(), x.parse::<f32>().unwrap())).collect();
    let wf = build(&weights);
    assert_close(word_frequency(&wf, "las"), 0.25);
    assert_close(word_frequency(&wf, "vegas"), 0.75);
    assert_eq!(zipf_frequency(&wf, "las"), 8.40);
    assert_eq!(zipf_frequency(&wf, "vegas"), 8.88);
    assert_close(word_frequency(&wf, "Las"), 0.00);

    let standardizer = wordfreq::Standardizer::new("en").unwrap();
    let wf = wf.standardizer(standardizer);
    assert_close(word_frequency(&wf, "Las"), 0.25);
}

#[test]
fn test_case_insensitive_with_standardizer() {
    let wf = build(&[("word", 1.0), ("vegas", 3.0)]);
    let wf = wf.standardizer(wordfreq::Standardizer::new("en").unwrap());
    assert_eq!(word_frequency(&wf, "Word"), word_frequency(&wf, "word"));
    assert_eq!(word_frequency(&wf, "WORD"), word_frequency(&wf, "word"));
    assert_close(word_frequency(&wf, "Word"), 0.25);
}

#[test]
fn test_frequencies_sum_to_one() {
    let wf = build(&[("a", 3.0), ("b", 1.5), ("c", 14.0), ("d", 0.25), ("e", 7.5)]);
    let words = ["a", "b", "c", "d", "e"];
    let sum: f32 = words.iter().map(|w| word_frequency(&wf, w)).sum();
    assert!((sum - 1.0).abs() <= 1e-6, "{sum}");
}

#[test]
fn test_minimum_floor() {
    let wf = build(&[("las", 10.0), ("vegas", 30.0)]);
    let wf = wf.minimum(0.001f32.to_bits()).unwrap();
    assert_close(word_frequency(&wf, "absent"), 0.001);
    assert!(word_frequency(&wf, "las") >= 0.001);
    assert!(word_frequency(&wf, "vegas") >= 0.001);

    // In the Zipf query the floor is itself a Zipf value.
    let wf = build(&[("las", 10.0), ("vegas", 30.0)]);
    let wf = wf.minimum(2.0f32.to_bits()).unwrap();
    assert_eq!(zipf_frequency(&wf, "absent"), 2.0);
    assert!(zipf_frequency(&wf, "vegas") >= 2.0);
}

#[test]
fn test_minimum_rejects_negative() {
    let wf = build(&[("las", 10.0)]);
    let r = wf.minimum((-1.0f32).to_bits());
    assert!(matches!(r, Err(WordFreqError::NegativeMinimum)));
    let wf = build(&[("las", 10.0)]);
    assert!(wf.minimum(0.0f32.to_bits()).is_ok());
}

#[test]
fn test_digit_run_aggregation() {
    // Both five-digit numbers share the smashed key "00000"; each gets the
    // stored weight scaled by its own Benford estimate.
    let wf = build(&[("00000", 1.0), ("word", 3.0)]);
    let f_90210 = word_frequency(&wf, "90210");
    let f_92222 = word_frequency(&wf, "92222");
    let f_12222 = word_frequency(&wf, "12222");
    assert!(f_90210 > 0.0);
    assert!(f_92222 > 0.0);
    // Same leading digit: same Benford weight.
    assert_eq!(f_90210, f_92222);
    // Different leading digits: different frequencies.
    assert!(f_12222 != f_92222);
    assert_close(f_90210, 0.25 * (0.045 / 10f32.powi(4)));
}

#[test]
fn test_year_plausibility_ordering() {
    let wf = build(&[("0000", 1.0), ("word", 3.0)]);
    let recent = word_frequency(&wf, "2022");
    let ancient = word_frequency(&wf, "1022");
    assert!(recent > 0.0);
    assert!(ancient > 0.0);
    assert!(recent > ancient);
}

#[test]
fn test_round_trip_unicode_words() {
    let wf = build(&[("café", 1.0), ("naïve", 2.0), ("schloß", 3.0), ("字", 4.0)]);
    let bytes = wf.serialize().unwrap();
    let other = WordFreq::deserialize(&bytes).unwrap();
    let mut a = wf.entries();
    let mut b = other.entries();
    a.sort();
    b.sort();
    assert_eq!(a, b);
}

#[test]
fn test_deserialize_truncated() {
    // A single record: every proper prefix of it is truncated.
    let wf = build(&[("las", 10.0)]);
    let bytes = wf.serialize().unwrap();
    assert_eq!(bytes.len(), 8 + 3 + 4);
    for cut in 1..bytes.len() {
        let r = WordFreq::deserialize(&bytes[..bytes.len() - cut]);
        assert!(matches!(r, Err(WordFreqError::TruncatedRecord)), "cut {cut}");
    }
    // A length prefix overrunning the remaining bytes is also truncation.
    let mut forged = Vec::new();
    forged.extend_from_slice(&100u64.to_le_bytes());
    forged.extend_from_slice(b"las");
    let r = WordFreq::deserialize(&forged);
    assert!(matches!(r, Err(WordFreqError::TruncatedRecord)));
}

#[test]
fn test_deserialize_invalid_utf8() {
    let mut bytes = Vec::new();
    bytes.extend_from_slice(&2u64.to_le_bytes());
    bytes.extend_from_slice(&[0xFF, 0xFE]);
    bytes.extend_from_slice(&0.25f32.to_le_bytes());
    let r = WordFreq::deserialize(&bytes);
    assert!(matches!(r, Err(WordFreqError::InvalidWordBytes)));
}

#[test]
fn test_deserialize_empty_is_empty_model() {
    let wf = WordFreq::deserialize(&[]).unwrap();
    assert!(wf.entries().is_empty());
    assert_close(word_frequency(&wf, "anything"), 0.0);
}

#[test]
fn test_duplicate_words_keep_last() {
    let wf = WordFreq::new(vec![
        ("word".to_string(), 0.25f32.to_bits()),
        ("word".to_string(), 0.75f32.to_bits()),
    ]);
    assert_eq!(word_frequency(&wf, "word"), 0.75);
    assert_eq!(wf.entries().len(), 1);
}

#[test]
fn test_word_weight_lines_parses() {
    let pairs = word_weight_lines("las 10\nvegas 30\n").unwrap();
    assert_eq!(
        pairs,
        vec![
            ("las".to_string(), "10".to_string()),
            ("vegas".to_string(), "30".to_string()),
        ]
    );
    // Carriage returns and missing final newline are tolerated.
    let pairs = word_weight_lines("las 10\r\nvegas 30").unwrap();
    assert_eq!(pairs.len(), 2);
    assert_eq!(pairs[1], ("vegas".to_string(), "30".to_string()));
    assert_eq!(word_weight_lines("").unwrap(), Vec::new());
}

#[test]
fn test_word_weight_lines_rejects_bad_line() {
    let r = word_weight_lines("las 10\nbad\nvegas 30\n");
    match r {
        Err(WordFreqError::MalformedLine { line_number, content }) => {
            assert_eq!(line_number, 1);
            assert_eq!(content, "bad");
        },
        other => panic!("unexpected: {other:?}"),
    }
    let r = word_weight_lines("las 10 20\n");
    assert!(matches!(r, Err(WordFreqError::MalformedLine { line_number: 0, .. })));
    // A final line without a newline keeps its carriage return in the
    // reported content; a line ended by a newline has it stripped.
    match word_weight_lines("bad\r") {
        Err(WordFreqError::MalformedLine { content, .. }) => assert_eq!(content, "bad\r"),
        other => panic!("unexpected: {other:?}"),
    }
    match word_weight_lines("bad\r\n") {
        Err(WordFreqError::MalformedLine { content, .. }) => assert_eq!(content, "bad"),
        other => panic!("unexpected: {other:?}"),
    }
}

#[test]
fn test_model_kind_example() {
    let kind = wordfreq::ModelKind::ExampleEn;
    assert!(matches!(kind, wordfreq::ModelKind::ExampleEn));
}
