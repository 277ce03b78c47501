use fbdb_webscrape::decimal::{parse_score, push_decimal, push_digits};
use fbdb_webscrape::BoxScore;

fn sample() -> BoxScore {
    BoxScore::from_properties(
        String::from("12/1/2024"),
        String::from("Team A"),
        28,
        String::from("Team B"),
        31,
    )
}

#[test]
fn from_properties_keeps_every_field() {
    let score = sample();
    assert_eq!(score.date(), "12/1/2024");
    assert_eq!(score.away_team(), "Team A");
    assert_eq!(score.away_score(), 28);
    assert_eq!(score.home_team(), "Team B");
    assert_eq!(score.home_score(), 31);
}

#[test]
fn line_puts_the_home_side_first() {
    assert_eq!(sample().to_string(), "[12/1/2024] Team B 31 - Team A 28");
}

#[test]
fn line_of_negative_and_extreme_scores() {
    let score = BoxScore::from_properties(
        String::new(),
        String::from("A"),
        i32::MIN,
        String::from("H"),
        i32::MAX,
    );
    assert_eq!(score.to_string(), "[] H 2147483647 - A -2147483648");
}

#[test]
fn line_keeps_text_that_is_not_ascii() {
    let score = BoxScore::from_properties(
        String::from("1. März"),
        String::from("Zürich"),
        0,
        String::from("São Paulo"),
        7,
    );
    assert_eq!(score.to_string(), "[1. März] São Paulo 7 - Zürich 0");
}

#[test]
fn clone_keeps_every_field() {
    let copy = sample().clone();
    assert_eq!(copy.date(), "12/1/2024");
    assert_eq!(copy.away_team(), "Team A");
    assert_eq!(copy.away_score(), 28);
    assert_eq!(copy.home_team(), "Team B");
    assert_eq!(copy.home_score(), 31);
}

#[test]
fn score_zero_parses() {
    assert_eq!(parse_score("0"), Some(0));
}

#[test]
fn score_that_is_no_number_is_refused() {
    assert_eq!(parse_score("TBD"), None);
}

#[test]
fn negative_score_parses() {
    assert_eq!(parse_score("-3"), Some(-3));
}

#[test]
fn score_with_plus_sign_parses() {
    assert_eq!(parse_score("+7"), Some(7));
}

#[test]
fn score_with_leading_zeros_parses() {
    assert_eq!(parse_score("007"), Some(7));
    assert_eq!(parse_score("-000000000000000000000000012"), Some(-12));
}

#[test]
fn score_bounds() {
    assert_eq!(parse_score("2147483647"), Some(i32::MAX));
    assert_eq!(parse_score("2147483648"), None);
    assert_eq!(parse_score("-2147483648"), Some(i32::MIN));
    assert_eq!(parse_score("-2147483649"), None);
    assert_eq!(parse_score("99999999999999999999999999"), None);
}

#[test]
fn malformed_scores_are_refused() {
    for text in ["", "-", "+", "--1", "+-1", "1-", " 5", "5 ", "1_0", "1.0", "0x10", "٣", "5\n"] {
        assert_eq!(parse_score(text), None, "{:?}", text);
    }
}

#[test]
fn parse_score_agrees_with_std() {
    let texts = [
        "0", "-0", "+0", "1", "-1", "10", "28", "31", "100", "2147483647", "-2147483648",
        "2147483648", "-2147483649", "4294967296", "", "-", "+", "a", "1a", "a1", "1 ", " 1",
        "+12", "-12", "0012", "1e3", "١٢",
    ];
    for text in texts {
        assert_eq!(parse_score(text), text.parse::<i32>().ok(), "{:?}", text);
    }
}

#[test]
fn parse_score_reads_back_what_push_decimal_writes() {
    for n in [0, 1, -1, 9, 10, 28, 31, 99, 100, 12345, -98765, i32::MAX, i32::MIN] {
        let mut text = String::new();
        push_decimal(&mut text, n as i64);
        assert_eq!(text, format!("{}", n));
        assert_eq!(parse_score(&text), Some(n));
    }
}

#[test]
fn push_decimal_appends() {
    let mut text = String::from("yr=");
    push_decimal(&mut text, 2024);
    assert_eq!(text, "yr=2024");
    push_decimal(&mut text, -5);
    assert_eq!(text, "yr=2024-5");
    let mut low = String::new();
    push_decimal(&mut low, i64::MIN);
    assert_eq!(low, "-9223372036854775808");
}

#[test]
fn push_digits_writes_zero_and_the_largest_number() {
    let mut text = String::new();
    push_digits(&mut text, 0);
    assert_eq!(text, "0");
    push_digits(&mut text, u64::MAX);
    assert_eq!(text, "018446744073709551615");
}
