use site_server::number::{decimal_string, parse_decimal, NumberError};

#[test]
fn plain_digits_are_read() {
    assert_eq!(parse_decimal("0", 10), Ok(0));
    assert_eq!(parse_decimal("7", 10), Ok(7));
    assert_eq!(parse_decimal("8080", 65535), Ok(8080));
    assert_eq!(parse_decimal("65535", 65535), Ok(65535));
}

#[test]
fn a_leading_plus_is_allowed() {
    assert_eq!(parse_decimal("+42", 100), Ok(42));
    assert_eq!(parse_decimal("+0", 100), Ok(0));
}

#[test]
fn leading_zeros_do_not_count() {
    assert_eq!(parse_decimal("000000000000000000000000000012", 20), Ok(12));
}

#[test]
fn empty_text_is_empty() {
    assert_eq!(parse_decimal("", 10), Err(NumberError::Empty));
}

#[test]
fn a_lone_sign_is_no_number() {
    assert_eq!(parse_decimal("+", 10), Err(NumberError::InvalidDigit));
    assert_eq!(parse_decimal("-", 10), Err(NumberError::InvalidDigit));
}

#[test]
fn anything_but_digits_is_refused() {
    for text in ["-1", " 1", "1 ", "1_000", "0x10", "12a", "++1", "+-1", "1.5", "١٢", "é"] {
        assert_eq!(parse_decimal(text, u64::MAX), Err(NumberError::InvalidDigit), "{:?}", text);
    }
}

#[test]
fn too_large_is_told_apart() {
    assert_eq!(parse_decimal("65536", 65535), Err(NumberError::TooLarge));
    assert_eq!(parse_decimal("11", 10), Err(NumberError::TooLarge));
    assert_eq!(parse_decimal("18446744073709551615", u64::MAX), Ok(u64::MAX));
    assert_eq!(parse_decimal("18446744073709551616", u64::MAX), Err(NumberError::TooLarge));
    assert_eq!(
        parse_decimal("99999999999999999999999999999999", u64::MAX),
        Err(NumberError::TooLarge)
    );
}

#[test]
fn agrees_with_the_standard_parser_on_success() {
    let texts = [
        "", "0", "1", "+1", "-1", "007", "65535", "65536", "18446744073709551615",
        "18446744073709551616", "abc", "12 ", " 12", "+", "1+", "3e2", "٣",
    ];
    for text in texts {
        let ours = parse_decimal(text, u64::MAX).ok();
        let theirs = text.parse::<u64>().ok();
        assert_eq!(ours, theirs, "{:?}", text);
        let ours = parse_decimal(text, 65535).ok();
        let theirs = text.parse::<u16>().ok().map(u64::from);
        assert_eq!(ours, theirs, "{:?}", text);
    }
}

#[test]
fn numbers_are_written_in_base_ten() {
    assert_eq!(decimal_string(0), "0");
    assert_eq!(decimal_string(9), "9");
    assert_eq!(decimal_string(10), "10");
    assert_eq!(decimal_string(404), "404");
    assert_eq!(decimal_string(65535), "65535");
    assert_eq!(decimal_string(u64::MAX), "18446744073709551615");
}

#[test]
fn what_is_written_reads_back() {
    for n in [0u64, 1, 9, 10, 99, 100, 200, 404, 500, 65535, 1 << 40, u64::MAX] {
        assert_eq!(parse_decimal(&decimal_string(n), u64::MAX), Ok(n));
        assert_eq!(decimal_string(n), n.to_string());
    }
}
