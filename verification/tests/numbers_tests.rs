use wordfreq::NumberHandler;

const DIGIT_FREQS: [f32; 10] = [
    0.009, 0.300, 0.175, 0.124, 0.096, 0.078, 0.066, 0.057, 0.050, 0.045,
];

fn benford_freq(text: &str) -> f32 {
    let first_digit = text.chars().next().unwrap().to_digit(10).unwrap() as usize;
    DIGIT_FREQS[first_digit] / 10f32.powi(text.len() as i32 - 1)
}

fn year_freq(text: &str) -> f32 {
    let year = text.parse::<f32>().unwrap();
    let year_log_freq = if year <= 2019.0 {
        0.0083f32.mul_add(-2019.0 + year, -1.9185)
    } else if 2019.0 < year && year <= 2019.0 + 20.0 {
        -1.9185
    } else {
        0.2f32.mul_add(-year + (2019.0 + 20.0), -1.9185)
    };
    let year_prob = 10f32.powf(year_log_freq);
    let not_year_prob = 0.1 * benford_freq(text);
    year_prob + not_year_prob
}

fn digit_freq(handler: &NumberHandler, text: &str) -> f32 {
    let mut freq = 1.0f32;
    for run in handler.digit_runs(text) {
        if run.len() == 4 {
            freq *= year_freq(&run);
        } else {
            freq *= benford_freq(&run);
        }
    }
    freq
}

fn assert_close(a: f32, b: f32) {
    let scale = a.abs().max(b.abs()).max(1e-30);
    assert!((a - b).abs() <= 1e-5 * scale, "{a} != {b}");
}

#[test]
fn test_smash_numbers() {
    let handler: NumberHandler = NumberHandler::new();
    assert_eq!(handler.smash_numbers("33.4"), "00.0");
    assert_eq!(handler.smash_numbers("33-4"), "00-4");
    assert_eq!(handler.smash_numbers("三三.四"), "三三.四");
}

#[test]
fn test_smash_numbers_more() {
    let handler = NumberHandler::new();
    // A lone digit is not a run and stays untouched.
    assert_eq!(handler.smash_numbers("7"), "7");
    assert_eq!(handler.smash_numbers("a7b"), "a7b");
    // Two digits make a run.
    assert_eq!(handler.smash_numbers("42"), "00");
    // Digits of any script are smashed to the ASCII zero.
    assert_eq!(handler.smash_numbers("١٩٩١"), "0000");
    assert_eq!(handler.smash_numbers("１９９１.０８"), "0000.00");
    // Punctuation can end a run.
    assert_eq!(handler.smash_numbers("33."), "00.");
    assert_eq!(handler.smash_numbers("802.11n"), "000.00n");
}

#[test]
fn test_smash_matches_pattern_rewrite() {
    // The smasher agrees with rewriting every match of `\d[\d.,]+` by
    // zeroing its digits.
    let handler = NumberHandler::new();
    let multi = regex::Regex::new(r"\d[\d.,]+").unwrap();
    let digit = regex::Regex::new(r"\d").unwrap();
    let cases = [
        "33.4", "33-4", "3.4.5", "1991年08月07日", "a7b", "802.11n", "٠٨٩٩",
        "１９９１.０８", "12,345.67", "7", "..7", "7..", "x3,y", "33.", "", "no digits",
        "a1,2b", "9,",
    ];
    for case in cases {
        let expected = multi
            .replace_all(case, |c: &regex::Captures| {
                digit.replace_all(c.get(0).unwrap().as_str(), "0").to_string()
            })
            .to_string();
        assert_eq!(handler.smash_numbers(case), expected, "{case}");
    }
}

#[test]
fn test_digit_runs() {
    let handler = NumberHandler::new();
    assert_eq!(handler.digit_runs("1991.08.07"), vec!["1991", "08", "07"]);
    assert_eq!(handler.digit_runs("1991年08月07日"), vec!["1991", "08", "07"]);
    assert_eq!(handler.digit_runs("平成三年八月七日"), Vec::<String>::new());
    // Digit glyphs of other scripts are standardized to ASCII digits.
    assert_eq!(handler.digit_runs("１９９１.０８.０７"), vec!["1991", "08", "07"]);
    assert_eq!(handler.digit_runs("٠٨٩٩"), vec!["0899"]);
    // A lone digit is not part of any run.
    assert_eq!(handler.digit_runs("7"), Vec::<String>::new());
}

#[test]
fn test_digit_freq() {
    let handler: NumberHandler = NumberHandler::new();
    assert_close(digit_freq(&handler, "1991.08.07"), 5.7467896897867986e-09);
    assert_close(digit_freq(&handler, "1991年08月07日"), 5.7467896897867986e-09);
    assert_close(digit_freq(&handler, "平成三年八月七日"), 1.0);
    assert_close(
        digit_freq(&handler, "１９９１.０８.０７"),
        5.7467896897867986e-09,
    );
}

#[test]
fn test_benford_values() {
    assert_close(benford_freq("7"), 0.057);
    assert_close(benford_freq("07"), 0.0009);
    assert_close(benford_freq("007"), 8.999999999999999e-05);
}

#[test]
fn test_year_values() {
    assert_close(year_freq("1992"), 0.007231119202497894);
    assert_close(year_freq("2023"), 0.012081740881970011);
    assert_close(year_freq("0000"), 9.000000000002107e-07);
    assert_close(year_freq("9999"), 4.5e-06);
}
