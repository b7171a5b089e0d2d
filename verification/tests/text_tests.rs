use git_diary::text::{append_listing, decimal_text, without_dashes};

#[test]
fn decimal_text_of_small_numbers() {
    assert_eq!(decimal_text(0), "0");
    assert_eq!(decimal_text(7), "7");
    assert_eq!(decimal_text(10), "10");
    assert_eq!(decimal_text(1704067200), "1704067200");
}

#[test]
fn decimal_text_of_negative_numbers() {
    assert_eq!(decimal_text(-1), "-1");
    assert_eq!(decimal_text(-305), "-305");
}

#[test]
fn decimal_text_of_the_largest_and_smallest() {
    assert_eq!(decimal_text(i64::MAX), "9223372036854775807");
    assert_eq!(decimal_text(i64::MIN), "-9223372036854775808");
}

#[test]
fn decimal_text_agrees_with_the_standard_formatting() {
    let samples: Vec<i64> = vec![0, 1, 9, 10, 11, 99, 100, 101, 12345, -12345, 1_000_000_007];
    for n in samples {
        assert_eq!(decimal_text(n), format!("{}", n));
    }
}

#[test]
fn without_dashes_takes_out_every_dash() {
    assert_eq!(without_dashes("2024-01-01"), "20240101");
    assert_eq!(without_dashes("---"), "");
    assert_eq!(without_dashes("-a-b-"), "ab");
}

#[test]
fn without_dashes_keeps_everything_else() {
    assert_eq!(without_dashes("2024/01/01"), "2024/01/01");
    assert_eq!(without_dashes(""), "");
    assert_eq!(without_dashes("a b\tc\u{2013}d"), "a b\tc\u{2013}d");
}

#[test]
fn listing_puts_the_last_line_first() {
    let lines: Vec<String> = vec!["one".to_string(), "two".to_string(), "three".to_string()];
    let mut out = String::from("head\n");
    append_listing(&mut out, &lines, "- ");
    assert_eq!(out, "head\n- three\n- two\n- one\n");
}

#[test]
fn listing_of_nothing_adds_nothing() {
    let lines: Vec<String> = Vec::new();
    let mut out = String::from("head");
    append_listing(&mut out, &lines, "- ");
    assert_eq!(out, "head");
}
