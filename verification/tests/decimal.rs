use post_index::decimal::{decimal_string, parse_decimal};

#[test]
fn numerals_are_read() {
    assert_eq!(parse_decimal("0"), Some(0));
    assert_eq!(parse_decimal("1"), Some(1));
    assert_eq!(parse_decimal("42"), Some(42));
    assert_eq!(parse_decimal("1234567890"), Some(1234567890));
}

#[test]
fn a_leading_plus_and_leading_zeros_are_accepted() {
    assert_eq!(parse_decimal("+7"), Some(7));
    assert_eq!(parse_decimal("007"), Some(7));
    assert_eq!(parse_decimal("+000"), Some(0));
}

#[test]
fn other_text_is_refused() {
    for text in ["", "+", "-1", "++1", "1+", "12a", "a12", " 1", "1 ", "1.0", "0x10", "\u{661}"] {
        assert_eq!(parse_decimal(text), None, "{:?}", text);
    }
}

#[test]
fn numerals_beyond_the_machine_word_are_refused() {
    let max = usize::MAX.to_string();
    assert_eq!(parse_decimal(&max), Some(usize::MAX));
    let beyond = format!("{}0", max);
    assert_eq!(parse_decimal(&beyond), None);
    let next = (usize::MAX as u128 + 1).to_string();
    assert_eq!(parse_decimal(&next), None);
    assert_eq!(parse_decimal("99999999999999999999999999999999999999999"), None);
}

#[test]
fn reading_agrees_with_the_standard_parser() {
    for text in ["0", "5", "+5", "-5", "", "+", "18446744073709551615", "18446744073709551616", "0000000000000000000000001", "12 ", "٣"] {
        assert_eq!(parse_decimal(text), text.parse::<usize>().ok(), "{:?}", text);
    }
}

#[test]
fn numerals_are_written() {
    assert_eq!(decimal_string(0), "0");
    assert_eq!(decimal_string(7), "7");
    assert_eq!(decimal_string(10), "10");
    assert_eq!(decimal_string(12345), "12345");
    assert_eq!(decimal_string(-1), "-1");
    assert_eq!(decimal_string(-120), "-120");
    assert_eq!(decimal_string(i32::MAX), "2147483647");
    assert_eq!(decimal_string(i32::MIN), "-2147483648");
}

#[test]
fn writing_agrees_with_the_standard_display() {
    let mut n: i32 = i32::MIN;
    loop {
        assert_eq!(decimal_string(n), n.to_string());
        match n.checked_add(9_999_991) {
            Some(next) => n = next,
            None => break,
        }
    }
    for n in -1000..1000 {
        assert_eq!(decimal_string(n), n.to_string());
    }
}

#[test]
fn what_is_written_is_read_back() {
    for n in [0, 1, 9, 10, 99, 100, 2147483647] {
        assert_eq!(parse_decimal(&decimal_string(n)), Some(n as usize));
    }
}
