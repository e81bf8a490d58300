use rugif::text::{
    decimal_string, format_minutes_seconds, join_path, pad2_string, signed_decimal_string,
    split_on_char, trim_whitespace, chars_of, concatenate, string_from_chars,
};
use rugif::numbers::IntParseError;

#[test]
fn decimal_renders_numbers() {
    assert_eq!(decimal_string(0), "0");
    assert_eq!(decimal_string(7), "7");
    assert_eq!(decimal_string(1234567890), "1234567890");
    assert_eq!(decimal_string(u64::MAX), u64::MAX.to_string());
}

#[test]
fn signed_decimal_renders_sign() {
    assert_eq!(signed_decimal_string(0), "0");
    assert_eq!(signed_decimal_string(-42), "-42");
    assert_eq!(signed_decimal_string(i32::MIN), "-2147483648");
    assert_eq!(signed_decimal_string(i32::MAX), "2147483647");
}

#[test]
fn pad2_pads_single_digits() {
    assert_eq!(pad2_string(0), "00");
    assert_eq!(pad2_string(9), "09");
    assert_eq!(pad2_string(10), "10");
    assert_eq!(pad2_string(123), "123");
}

#[test]
fn minutes_seconds_matches_format() {
    for secs in [0u64, 5, 59, 60, 61, 599, 3599, 6000, 123456] {
        assert_eq!(
            format_minutes_seconds(secs),
            format!("{:02}:{:02}", secs / 60, secs % 60)
        );
    }
}

#[test]
fn join_path_matches_std() {
    let cases = [
        ("/home/alice", "Videos"),
        ("/home/alice/", "Videos"),
        ("", "rugif"),
        ("/tmp", "/etc/passwd"),
        (".config/rugif", "settings.toml"),
        (".", "rugif"),
    ];
    for (base, name) in cases {
        let expected = std::path::Path::new(base).join(name);
        assert_eq!(join_path(base, name), expected.to_string_lossy());
    }
}

#[test]
fn split_keeps_empty_pieces() {
    assert_eq!(split_on_char("a,,b", ','), vec!["a", "", "b"]);
    assert_eq!(split_on_char("", ','), vec![""]);
    assert_eq!(split_on_char(",", ','), vec!["", ""]);
    assert_eq!(split_on_char("1,2,3,4", ','), vec!["1", "2", "3", "4"]);
    assert_eq!(split_on_char("héllo,wörld", ','), vec!["héllo", "wörld"]);
}

#[test]
fn trim_matches_std() {
    for s in ["  x y \n", "\u{3000}a\u{85}", "", "   ", "abc", "\t1,2,3,4\r\n", "\u{2009}é\u{2009}"] {
        assert_eq!(trim_whitespace(s), s.trim());
    }
}

#[test]
fn chars_and_concat() {
    let cs = chars_of("añb");
    assert_eq!(cs, vec!['a', 'ñ', 'b']);
    assert_eq!(string_from_chars(&cs, 1, 3), "ñb");
    assert_eq!(concatenate("ab", "cd"), "abcd");
}

#[test]
fn int_error_messages_match_std() {
    let e = "".parse::<i32>().unwrap_err();
    assert_eq!(IntParseError::Empty.message(), e.to_string());
    let e = "x".parse::<i32>().unwrap_err();
    assert_eq!(IntParseError::InvalidDigit.message(), e.to_string());
    let e = "99999999999".parse::<i32>().unwrap_err();
    assert_eq!(IntParseError::PosOverflow.message(), e.to_string());
    let e = "-99999999999".parse::<i32>().unwrap_err();
    assert_eq!(IntParseError::NegOverflow.message(), e.to_string());
    let e = "0".parse::<std::num::NonZeroU32>().unwrap_err();
    assert_eq!(IntParseError::Zero.message(), e.to_string());
}
