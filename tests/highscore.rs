use flappy_animals::highscore::{high_score_text, load_high_score};

fn chars(s: &str) -> Vec<char> {
    s.chars().collect()
}

#[test]
fn high_score_round_trip() {
    for n in [0, 1, 7, 10, 42, 99, 100, 12345, i32::MAX, -1, -10, i32::MIN] {
        let text = high_score_text(n);
        assert_eq!(load_high_score(&text), n);
    }
}

#[test]
fn high_score_text_is_decimal() {
    assert_eq!(high_score_text(0), chars("0"));
    assert_eq!(high_score_text(305), chars("305"));
    assert_eq!(high_score_text(-27), chars("-27"));
}

#[test]
fn load_trims_whitespace() {
    assert_eq!(load_high_score(&chars("  42\n")), 42);
    assert_eq!(load_high_score(&chars("\t+7\r\n")), 7);
    assert_eq!(load_high_score(&chars("-0")), 0);
}

#[test]
fn load_trims_unicode_whitespace() {
    assert_eq!(load_high_score(&chars("42\u{a0}")), 42);
    assert_eq!(load_high_score(&chars("\u{3000}\u{2003}15\u{2028}")), 15);
    assert_eq!(load_high_score(&chars("\u{85}-3\u{202f}")), -3);
    // a zero-width space is not whitespace
    assert_eq!(load_high_score(&chars("42\u{200b}")), 0);
}

#[test]
fn load_defaults_to_zero() {
    assert_eq!(load_high_score(&chars("")), 0);
    assert_eq!(load_high_score(&chars("   ")), 0);
    assert_eq!(load_high_score(&chars("abc")), 0);
    assert_eq!(load_high_score(&chars("12a")), 0);
    assert_eq!(load_high_score(&chars("-")), 0);
    assert_eq!(load_high_score(&chars("1 2")), 0);
    assert_eq!(load_high_score(&chars("\u{665}")), 0);
    assert_eq!(load_high_score(&chars("2147483648")), 0);
    assert_eq!(load_high_score(&chars("-2147483649")), 0);
    assert_eq!(load_high_score(&chars("99999999999999999999")), 0);
    assert_eq!(load_high_score(&chars("2147483647")), i32::MAX);
    assert_eq!(load_high_score(&chars("-2147483648")), i32::MIN);
}
