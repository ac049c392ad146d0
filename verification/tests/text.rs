use todo::text::{
    byte_len_capped, char_is_whitespace, char_len, find_cut, fits_in, lower_char, lowercase,
    decimal, from_chars, join_words, pad_end, pad_start, read_digits, read_signed,
    read_unsigned, same_chars, starts_with_at, text_from, to_chars, trim, trim_bounds,
};

fn chars(s: &str) -> Vec<char> {
    s.chars().collect()
}

#[test]
fn text_and_characters_convert_both_ways() {
    assert_eq!(to_chars("a\u{e9}\u{2026}z"), vec!['a', '\u{e9}', '\u{2026}', 'z']);
    assert_eq!(to_chars(""), Vec::<char>::new());
    assert_eq!(from_chars(&vec!['o', 'k', '\u{1f600}']), "ok\u{1f600}");
    assert!(same_chars(&chars("abc"), &chars("abc")));
    assert!(!same_chars(&chars("abc"), &chars("abd")));
    assert!(!same_chars(&chars("abc"), &chars("ab")));
    assert!(same_chars(&chars(""), &chars("")));
}

#[test]
fn decimal_numerals() {
    assert_eq!(decimal(0), "0");
    assert_eq!(decimal(7), "7");
    assert_eq!(decimal(10), "10");
    assert_eq!(decimal(1_234_567_890), "1234567890");
    assert_eq!(decimal(u64::MAX), "18446744073709551615");
}

#[test]
fn decimal_numerals_read_back() {
    for n in [0u64, 1, 9, 10, 99, 100, 12345, u64::MAX - 1, u64::MAX] {
        let text = chars(&decimal(n));
        assert_eq!(read_digits(&text, 0, text.len(), u64::MAX), Some(n));
        assert_eq!(read_unsigned(&text, 0, text.len()), Some(n));
    }
}

#[test]
fn reading_digits_within_a_limit() {
    let text = chars("x0420y");
    assert_eq!(read_digits(&text, 1, 5, 1000), Some(420));
    assert_eq!(read_digits(&text, 1, 5, 420), Some(420));
    assert_eq!(read_digits(&text, 1, 5, 419), None);
    assert_eq!(read_digits(&text, 0, 5, 1000), None);
    assert_eq!(read_digits(&text, 1, 6, 1000), None);
    assert_eq!(read_digits(&text, 2, 2, 1000), None);
    let big = chars("18446744073709551616");
    assert_eq!(read_digits(&big, 0, big.len(), u64::MAX), None);
    let zeros = chars("000000000000000000000000000000000000000007");
    assert_eq!(read_digits(&zeros, 0, zeros.len(), 7), Some(7));
}

#[test]
fn unsigned_literals() {
    for (text, want) in [
        ("0", Some(0u64)),
        ("+0", Some(0)),
        ("12", Some(12)),
        ("+12", Some(12)),
        ("18446744073709551615", Some(u64::MAX)),
        ("18446744073709551616", None),
        ("", None),
        ("+", None),
        ("-1", None),
        ("++1", None),
        ("1 ", None),
        (" 1", None),
        ("1a", None),
        ("\u{664}", None),
    ] {
        let c = chars(text);
        assert_eq!(read_unsigned(&c, 0, c.len()), want, "{:?}", text);
        assert_eq!(text.parse::<u64>().ok(), want, "{:?}", text);
    }
}

#[test]
fn signed_literals() {
    for (text, want) in [
        ("0", Some(0i64)),
        ("-0", Some(0)),
        ("+7", Some(7)),
        ("-7", Some(-7)),
        ("9223372036854775807", Some(i64::MAX)),
        ("9223372036854775808", None),
        ("-9223372036854775808", Some(i64::MIN)),
        ("-9223372036854775809", None),
        ("", None),
        ("-", None),
        ("+", None),
        ("+-1", None),
        ("-+1", None),
        ("1-", None),
        ("0x10", None),
    ] {
        let c = chars(text);
        assert_eq!(read_signed(&c, 0, c.len()), want, "{:?}", text);
        assert_eq!(text.parse::<i64>().ok(), want, "{:?}", text);
    }
}

#[test]
fn trimming_takes_whitespace_off_both_ends() {
    assert_eq!(trim("  buy milk \t\n"), "buy milk");
    assert_eq!(trim("buy  milk"), "buy  milk");
    assert_eq!(trim(""), "");
    assert_eq!(trim(" \t\r\n"), "");
    assert_eq!(trim("\u{a0}x\u{2003}"), "x");
    assert_eq!(trim("\u{200b}x"), "\u{200b}x");
    assert_eq!(trim_bounds(&chars("  ab ")), (2, 4));
    assert_eq!(trim_bounds(&chars("   ")), (3, 3));
    for text in ["  a b  ", "\u{3000}z", "q", "", " \u{85} "] {
        assert_eq!(trim(text), text.trim(), "{:?}", text);
    }
}

#[test]
fn words_are_joined_with_single_spaces() {
    let words: Vec<String> = ["buy", "", "milk", "now"].iter().map(|s| s.to_string()).collect();
    assert_eq!(join_words(&words, 0), "buy  milk now");
    assert_eq!(join_words(&words, 1), " milk now");
    assert_eq!(join_words(&words, 3), "now");
    assert_eq!(join_words(&words, 4), "");
    assert_eq!(join_words(&vec![], 0), "");
    assert_eq!(join_words(&words, 0), words.join(" "));
}

#[test]
fn prefixes_are_found_and_taken_off_once() {
    assert_eq!(text_from(&chars("-r=5m"), 3), "5m");
    assert_eq!(text_from(&chars("-r=-r=5m"), 3), "-r=5m");
    assert_eq!(text_from(&chars("-r="), 3), "");
    assert_eq!(text_from(&chars("abc"), 0), "abc");
    assert!(starts_with_at(&chars("--remind=x"), 0, &chars("--remind=")));
    assert!(starts_with_at(&chars("xx-r=x"), 2, &chars("-r=")));
    assert!(!starts_with_at(&chars("-r"), 0, &chars("-r=")));
    assert!(starts_with_at(&chars("ab"), 2, &chars("")));
}

#[test]
fn padding_fills_up_to_the_width() {
    assert_eq!(pad_end("ab", 5), "ab   ");
    assert_eq!(pad_end("abcdef", 5), "abcdef");
    assert_eq!(pad_end("", 0), "");
    assert_eq!(pad_start("7", 2), " 7");
    assert_eq!(pad_start("overdue", 7), "overdue");
    assert_eq!(pad_start("1h", 7), "     1h");
    assert_eq!(pad_end("\u{e9}t\u{e9}", 5), format!("{:5}", "\u{e9}t\u{e9}"));
    assert_eq!(pad_start("-", 7), format!("{:>7}", "-"));
}

#[test]
fn lengths_in_bytes_are_those_of_the_string() {
    for c in ['a', '\u{7f}', '\u{80}', '\u{e9}', '\u{7ff}', '\u{800}', '\u{20ac}', '\u{ffff}', '\u{10000}', '\u{1f600}', '\u{10ffff}'] {
        assert_eq!(char_len(c), c.len_utf8(), "{:?}", c);
    }
    for text in ["", "abc", "\u{e9}t\u{e9}", "\u{20ac}1", "\u{1f600}!"] {
        let c = chars(text);
        assert_eq!(byte_len_capped(&c, 1000), text.len());
        assert_eq!(byte_len_capped(&c, 2), text.len().min(2));
        for limit in 0..8usize {
            assert_eq!(fits_in(&c, limit), text.len() <= limit, "{:?} {}", text, limit);
            let cut = find_cut(&c, limit);
            let expected = if limit <= text.len() && text.is_char_boundary(limit) {
                Some(text[..limit].chars().count())
            } else {
                None
            };
            assert_eq!(cut, expected, "{:?} {}", text, limit);
        }
    }
}

#[test]
fn whitespace_is_what_unicode_calls_white_space() {
    for v in 0..=0x10_ffffu32 {
        if let Some(c) = char::from_u32(v) {
            assert_eq!(char_is_whitespace(c), c.is_whitespace(), "U+{:04X}", v);
        }
    }
}

#[test]
fn lower_case_is_that_of_the_string() {
    for v in 0..0x80u8 {
        let c = v as char;
        assert_eq!(lower_char(c).to_string(), c.to_string().to_lowercase(), "{:?}", c);
        assert_eq!(lower_char(c), c.to_ascii_lowercase());
    }
    for text in [
        "",
        "2H",
        "TOMORROW",
        "Tonight at 8",
        "MiXeD 123 [\\]^_`{|}~@",
        "\u{c9}T\u{c9}",
        "\u{3a3}\u{391}\u{3a3}",
        "STRA\u{1e9e}E",
        "\u{130}stanbul",
        "\u{212a}elvin",
    ] {
        assert_eq!(lowercase(text), text.to_lowercase(), "{:?}", text);
    }
}
