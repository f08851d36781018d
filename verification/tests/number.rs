use bibtidy::number::{decimal_string, parse_int};

#[test]
fn parse_int_reads_signed_decimal_integers() {
    assert_eq!(parse_int("2020"), Some(2020));
    assert_eq!(parse_int("0"), Some(0));
    assert_eq!(parse_int("007"), Some(7));
    assert_eq!(parse_int("+15"), Some(15));
    assert_eq!(parse_int("-15"), Some(-15));
    assert_eq!(parse_int("-0"), Some(0));
    assert_eq!(parse_int("2147483647"), Some(i32::MAX));
    assert_eq!(parse_int("-2147483648"), Some(i32::MIN));
}

#[test]
fn parse_int_refuses_everything_else() {
    assert_eq!(parse_int(""), None);
    assert_eq!(parse_int("-"), None);
    assert_eq!(parse_int("+"), None);
    assert_eq!(parse_int(" 12"), None);
    assert_eq!(parse_int("12 "), None);
    assert_eq!(parse_int("1-2"), None);
    assert_eq!(parse_int("--1"), None);
    assert_eq!(parse_int("12a"), None);
    assert_eq!(parse_int("twelve"), None);
    assert_eq!(parse_int("\u{661}\u{662}"), None);
    assert_eq!(parse_int("2147483648"), None);
    assert_eq!(parse_int("-2147483649"), None);
    assert_eq!(parse_int("99999999999999999999999999"), None);
}

#[test]
fn parse_int_agrees_with_the_standard_library() {
    let samples = [
        "", "0", "-0", "+0", "1", "-1", "+1", "10", "0010", "2147483647", "2147483648",
        "-2147483648", "-2147483649", "4294967296", "00000000000000000000000001", "1 ", " 1",
        "1_000", "0x10", "1e3", "+-1", "-+1", "+", "-", "12-34", "١٢", "１２",
    ];
    for text in samples {
        assert_eq!(parse_int(text), text.parse::<i32>().ok(), "{:?}", text);
    }
}

#[test]
fn decimal_string_writes_what_parse_int_reads() {
    assert_eq!(decimal_string(0), "0");
    assert_eq!(decimal_string(7), "7");
    assert_eq!(decimal_string(10), "10");
    assert_eq!(decimal_string(1984), "1984");
    assert_eq!(decimal_string(-1), "-1");
    assert_eq!(decimal_string(-305), "-305");
    assert_eq!(decimal_string(i32::MAX), "2147483647");
    assert_eq!(decimal_string(i32::MIN), "-2147483648");
}

#[test]
fn decimal_string_agrees_with_the_standard_library() {
    let mut n: i64 = i32::MIN as i64;
    while n <= i32::MAX as i64 {
        let value = n as i32;
        assert_eq!(decimal_string(value), value.to_string());
        assert_eq!(parse_int(&decimal_string(value)), Some(value));
        n += 7_654_321;
    }
}
