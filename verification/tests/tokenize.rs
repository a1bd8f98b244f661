use ftpcli::cli::prompt::is_space;
use ftpcli::cli::prompt::tokenize;
use ftpcli::text::parse_bounded_dec;
use ftpcli::text::str_eq;
use ftpcli::text::str_starts_with;
use ftpcli::text::suffix_after;
use ftpcli::text::u64_to_dec;
use ftpcli::text::usize_to_dec;

#[test]
fn tokenize_simple_line() {
    assert_eq!(tokenize("get a b\n"), vec!["get", "a", "b"]);
}

#[test]
fn tokenize_mixed_whitespace() {
    assert_eq!(tokenize("  a\tbb  c\n"), vec!["a", "bb", "c"]);
}

#[test]
fn tokenize_empty() {
    assert_eq!(tokenize(""), Vec::<String>::new());
}

#[test]
fn tokenize_only_spaces() {
    assert_eq!(tokenize(" \t \n"), Vec::<String>::new());
}

#[test]
fn tokenize_unicode_space() {
    assert_eq!(tokenize("\u{2003}x\u{2003}"), vec!["x"]);
}

#[test]
fn tokenize_single_word_no_newline() {
    assert_eq!(tokenize("pwd"), vec!["pwd"]);
}

#[test]
fn space_set_matches_std() {
    for u in 0..=0x10FFFFu32 {
        if let Some(c) = char::from_u32(u) {
            assert_eq!(is_space(c), c.is_whitespace(), "disagreement at U+{:04X}", u);
        }
    }
}

#[test]
fn tokenize_matches_split_whitespace() {
    let samples = [
        "get a b\n",
        "  a\tbb  c\n",
        "",
        " \t \n",
        "\u{2003}x\u{2003}",
        "one",
        "a  b",
        "\u{a0}\u{1680}word\u{3000}other\u{2028}",
    ];
    for s in samples {
        let expected: Vec<String> = s.split_whitespace().map(|w| w.to_string()).collect();
        assert_eq!(tokenize(s), expected, "on input {:?}", s);
    }
}

#[test]
fn dec_parsing_matches_std_u16() {
    let samples = ["0", "21", "+21", "65535", "65536", "", "x", "007", "+", "-5", " 21", "2 1"];
    for s in samples {
        assert_eq!(
            parse_bounded_dec(s, 65535),
            s.parse::<u16>().ok().map(|v| v as u64),
            "on input {:?}",
            s
        );
    }
}

#[test]
fn str_eq_basic() {
    assert!(str_eq("pwd", "pwd"));
    assert!(!str_eq("pwd", "pw"));
    assert!(!str_eq("pwd", "pwx"));
    assert!(str_eq("", ""));
}

#[test]
fn str_starts_with_basic() {
    assert!(str_starts_with("--port=21", "--port="));
    assert!(!str_starts_with("--port", "--port="));
    assert!(str_starts_with("abc", ""));
}

#[test]
fn suffix_after_basic() {
    assert_eq!(suffix_after("--port=2121", "--port="), "2121");
    assert_eq!(suffix_after("--username=", "--username="), "");
}

#[test]
fn dec_rendering() {
    assert_eq!(u64_to_dec(0), "0");
    assert_eq!(u64_to_dec(7), "7");
    assert_eq!(u64_to_dec(10), "10");
    assert_eq!(u64_to_dec(65535), "65535");
    assert_eq!(u64_to_dec(18446744073709551615), "18446744073709551615");
    assert_eq!(usize_to_dec(1234), "1234");
}

#[test]
fn dec_parsing() {
    assert_eq!(parse_bounded_dec("21", 65535), Some(21));
    assert_eq!(parse_bounded_dec("+21", 65535), Some(21));
    assert_eq!(parse_bounded_dec("0", 65535), Some(0));
    assert_eq!(parse_bounded_dec("65535", 65535), Some(65535));
    assert_eq!(parse_bounded_dec("65536", 65535), None);
    assert_eq!(parse_bounded_dec("9999999999", 65535), None);
    assert_eq!(parse_bounded_dec("", 65535), None);
    assert_eq!(parse_bounded_dec("+", 65535), None);
    assert_eq!(parse_bounded_dec("-1", 65535), None);
    assert_eq!(parse_bounded_dec("12x", 65535), None);
    assert_eq!(parse_bounded_dec("007", 255), Some(7));
}
