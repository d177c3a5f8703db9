use heos::text::{append_decimal, chars_of, parse_numeral, same_text, same_text_folded, trim};

fn decimal_text(n: i64) -> String {
    let mut text = String::new();
    append_decimal(&mut text, n);
    text
}

#[test]
fn decimal_text_of_small_and_large_numbers() {
    assert_eq!(decimal_text(0), "0");
    assert_eq!(decimal_text(7), "7");
    assert_eq!(decimal_text(10), "10");
    assert_eq!(decimal_text(75), "75");
    assert_eq!(decimal_text(1255), "1255");
    assert_eq!(decimal_text(-1), "-1");
    assert_eq!(decimal_text(-1203498127), "-1203498127");
    assert_eq!(decimal_text(i64::MAX), "9223372036854775807");
    assert_eq!(decimal_text(i64::MIN), "-9223372036854775808");
}

#[test]
fn decimal_text_agrees_with_the_standard_formatting() {
    for n in [-100_000i64, -99, -10, -9, 0, 9, 10, 99, 100, 101, 65535, 1 << 40] {
        assert_eq!(decimal_text(n), format!("{}", n));
    }
}

#[test]
fn append_decimal_keeps_what_was_there() {
    let mut text = "pid=".to_string();
    append_decimal(&mut text, -42);
    assert_eq!(text, "pid=-42");
    append_decimal(&mut text, 0);
    assert_eq!(text, "pid=-420");
}

#[test]
fn decimal_text_writes_each_digit() {
    let all: Vec<String> = (0i64..10).map(decimal_text).collect();
    assert_eq!(all, vec!["0", "1", "2", "3", "4", "5", "6", "7", "8", "9"]);
    assert_eq!(decimal_text(1234567890), "1234567890");
}

#[test]
fn parse_numeral_reads_signed_numbers() {
    let low = i32::MIN as i64;
    let high = i32::MAX as i64;
    assert_eq!(parse_numeral("3", true, low, high), Some(3));
    assert_eq!(parse_numeral("0", true, low, high), Some(0));
    assert_eq!(parse_numeral("-0", true, low, high), Some(0));
    assert_eq!(parse_numeral("+7", true, low, high), Some(7));
    assert_eq!(parse_numeral("-12", true, low, high), Some(-12));
    assert_eq!(parse_numeral("007", true, low, high), Some(7));
    assert_eq!(parse_numeral("2147483647", true, low, high), Some(2147483647));
    assert_eq!(parse_numeral("-2147483648", true, low, high), Some(-2147483648));
}

#[test]
fn parse_numeral_refuses_what_is_no_numeral() {
    let low = i32::MIN as i64;
    let high = i32::MAX as i64;
    assert_eq!(parse_numeral("", true, low, high), None);
    assert_eq!(parse_numeral("+", true, low, high), None);
    assert_eq!(parse_numeral("-", true, low, high), None);
    assert_eq!(parse_numeral(" 3", true, low, high), None);
    assert_eq!(parse_numeral("3 ", true, low, high), None);
    assert_eq!(parse_numeral("3a", true, low, high), None);
    assert_eq!(parse_numeral("a3", true, low, high), None);
    assert_eq!(parse_numeral("--3", true, low, high), None);
    assert_eq!(parse_numeral("+-3", true, low, high), None);
    assert_eq!(parse_numeral("3.0", true, low, high), None);
    assert_eq!(parse_numeral("٣", true, low, high), None);
}

#[test]
fn parse_numeral_refuses_what_is_out_of_range() {
    let low = i32::MIN as i64;
    let high = i32::MAX as i64;
    assert_eq!(parse_numeral("2147483648", true, low, high), None);
    assert_eq!(parse_numeral("-2147483649", true, low, high), None);
    assert_eq!(parse_numeral("99999999999999999999999999999999", true, low, high), None);
    assert_eq!(parse_numeral("-99999999999999999999999999999999", true, low, high), None);
    assert_eq!(parse_numeral("256", false, 0, 255), None);
    assert_eq!(parse_numeral("255", false, 0, 255), Some(255));
}

#[test]
fn parse_numeral_without_sign_refuses_minus() {
    assert_eq!(parse_numeral("-1", false, 0, 255), None);
    assert_eq!(parse_numeral("-0", false, 0, 255), None);
    assert_eq!(parse_numeral("+5", false, 0, 255), Some(5));
    assert_eq!(parse_numeral("50", false, 0, 255), Some(50));
}

#[test]
fn parse_numeral_reaches_both_ends_of_the_widest_range() {
    assert_eq!(
        parse_numeral("9223372036854775807", true, i64::MIN, i64::MAX),
        Some(i64::MAX)
    );
    assert_eq!(
        parse_numeral("-9223372036854775808", true, i64::MIN, i64::MAX),
        Some(i64::MIN)
    );
    assert_eq!(parse_numeral("9223372036854775808", true, i64::MIN, i64::MAX), None);
    assert_eq!(parse_numeral("-9223372036854775809", true, i64::MIN, i64::MAX), None);
    assert_eq!(parse_numeral("-9223372036854775808", true, i64::MIN + 1, i64::MAX), None);
}

#[test]
fn parse_numeral_agrees_with_the_standard_parsing() {
    for text in ["0", "-0", "+0", "12", "-12", "+12", "", "-", "+", "1x", "x", "300", "-300"] {
        assert_eq!(
            parse_numeral(text, true, i32::MIN as i64, i32::MAX as i64),
            text.parse::<i32>().ok().map(|v| v as i64)
        );
        assert_eq!(parse_numeral(text, false, 0, 255), text.parse::<u8>().ok().map(|v| v as i64));
    }
}

#[test]
fn same_text_compares_every_character() {
    assert!(same_text("", ""));
    assert!(same_text("success", "success"));
    assert!(!same_text("success", "succes"));
    assert!(!same_text("success", "succesS"));
    assert!(!same_text("é", "e"));
    assert!(same_text("日本", "日本"));
}

#[test]
fn same_text_folded_ignores_the_case_of_ascii_letters_only() {
    assert!(same_text_folded("PLAY", "play"));
    assert!(same_text_folded("pLaY", "PlAy"));
    assert!(!same_text_folded("play", "pla"));
    assert!(!same_text_folded("play", "plaz"));
    assert!(!same_text_folded("É", "é"));
    assert!(!same_text_folded("@", "`"));
    assert!(!same_text_folded("[", "{"));
    assert!(same_text_folded("", ""));
}

#[test]
fn trim_removes_white_space_at_both_ends() {
    assert_eq!(trim("  x \r\n"), "x");
    assert_eq!(trim("\t{\"a\": 1}\r\n"), "{\"a\": 1}");
    assert_eq!(trim("a b"), "a b");
    assert_eq!(trim(""), "");
    assert_eq!(trim(" \r\n\t "), "");
    assert_eq!(trim("\u{2003}x\u{a0}"), "x");
    assert_eq!(trim("\u{3000}é ü\u{2028}"), "é ü");
    assert_eq!(trim("_x_"), "_x_");
}

#[test]
fn trim_agrees_with_the_standard_trimming() {
    for text in ["", " ", "a", " a", "a ", " a b ", "\r\n", "x\r\n", "\u{feff}x", "\u{200b}x\u{85}"] {
        assert_eq!(trim(text), text.trim());
    }
}

#[test]
fn chars_of_gives_characters_not_bytes() {
    assert_eq!(chars_of("aé日"), vec!['a', 'é', '日']);
    assert_eq!(chars_of(""), Vec::<char>::new());
}
