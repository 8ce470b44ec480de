use oat::text::{
    chars_of, is_yes, join_with_spaces, normalize, parse_i64, text_of, to_signed_decimal, trim,
    whitespace,
};

#[test]
fn whitespace_agrees_with_std_on_every_character() {
    for code in 0u32..=0x10FFFF {
        if let Some(c) = char::from_u32(code) {
            assert_eq!(whitespace(c), c.is_whitespace(), "U+{:04X}", code);
        }
    }
}

#[test]
fn trim_removes_white_space_at_both_ends() {
    assert_eq!(trim("  hello world \n"), "hello world");
    assert_eq!(trim("hello"), "hello");
    assert_eq!(trim("\t\r\n x y \u{a0}\u{3000}"), "x y");
    assert_eq!(trim(""), "");
    assert_eq!(trim(" \n\t "), "");
    assert_eq!(trim(" é "), "é");
}

#[test]
fn trim_agrees_with_std() {
    for text in ["", " ", "a", " a", "a ", "  a  b  ", "\u{2003}x\u{2028}", "\n\n", "1700000000\n"] {
        assert_eq!(trim(text), text.trim());
    }
}

#[test]
fn characters_and_ranges() {
    assert_eq!(chars_of("aé漢"), vec!['a', 'é', '漢']);
    assert_eq!(text_of(&vec!['a', 'b', 'c', 'd'], 1, 3), "bc");
    assert_eq!(text_of(&vec!['a', 'b'], 2, 2), "");
}

#[test]
fn numbers_are_read_as_std_reads_them() {
    let cases = [
        "0", "7", "-7", "+7", "007", "-0", "+0", "1700000000", "9223372036854775807",
        "9223372036854775808", "-9223372036854775808", "-9223372036854775809",
        "99999999999999999999999999", "-99999999999999999999999999", "", "-", "+", "--1", "+-1",
        "1 ", " 1", "1_000", "12a", "a12", "1.5", "٣", "0x10", "00000000000000000000000000001",
    ];
    for text in cases {
        assert_eq!(parse_i64(text), text.parse::<i64>().ok(), "{:?}", text);
    }
}

#[test]
fn numbers_read_to_their_values() {
    assert_eq!(parse_i64("1234"), Some(1234));
    assert_eq!(parse_i64("-1234"), Some(-1234));
    assert_eq!(parse_i64("+15"), Some(15));
    assert_eq!(parse_i64("9223372036854775807"), Some(i64::MAX));
    assert_eq!(parse_i64("-9223372036854775808"), Some(i64::MIN));
    assert_eq!(parse_i64("9223372036854775808"), None);
    assert_eq!(parse_i64("abc"), None);
    assert_eq!(parse_i64(""), None);
}

#[test]
fn signed_numbers_are_written_in_decimal() {
    assert_eq!(to_signed_decimal(0), "0");
    assert_eq!(to_signed_decimal(42), "42");
    assert_eq!(to_signed_decimal(-42), "-42");
    assert_eq!(to_signed_decimal(i64::MAX), "9223372036854775807");
    assert_eq!(to_signed_decimal(i64::MIN), "-9223372036854775808");
    assert_eq!(to_signed_decimal(1_700_000_000), "1700000000");
}

#[test]
fn words_are_joined_with_single_spaces() {
    let words = |parts: &[&str]| parts.iter().map(|p| p.to_string()).collect::<Vec<String>>();
    assert_eq!(join_with_spaces(&words(&[])), "");
    assert_eq!(join_with_spaces(&words(&["one"])), "one");
    assert_eq!(join_with_spaces(&words(&["one", "two", "three"])), "one two three");
    assert_eq!(join_with_spaces(&words(&["", "a", ""])), " a ");
}

#[test]
fn answers_are_normalized() {
    assert_eq!(normalize("  YeS \n"), "yes");
    assert_eq!(normalize("Y"), "y");
    assert_eq!(normalize(""), "");
    assert_eq!(normalize(" ÄB "), "äb");
}

#[test]
fn single_letter_yes() {
    assert!(is_yes("y"));
    assert!(is_yes("Y\n"));
    assert!(is_yes("  y  "));
    assert!(!is_yes("yes"));
    assert!(!is_yes("n"));
    assert!(!is_yes(""));
    assert!(!is_yes("y y"));
}
