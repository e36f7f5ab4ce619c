use quick_translate::text::{
    chars_of, decimal_string, is_blank, is_white_space, parse_i32, str_equal, trim, word_count,
};

fn samples() -> Vec<String> {
    let mut v: Vec<String> = vec![
        String::new(),
        " ".to_string(),
        "ciao".to_string(),
        "  ciao  ".to_string(),
        "\t\n ciao mondo \r\n".to_string(),
        "\u{3000}testo\u{2029}".to_string(),
        "\u{200B}zero width\u{200B}".to_string(),
        "\u{180E}mongolian\u{180E}".to_string(),
        "\u{85}\u{A0}\u{1680}x\u{2000}\u{200A}\u{2028}\u{202F}\u{205F}".to_string(),
        "uno  due\ttre\nquattro".to_string(),
        "日本語 のテキスト".to_string(),
        "   ".to_string(),
        "a".to_string(),
    ];
    for u in 0u32..0x3100 {
        if let Some(c) = char::from_u32(u) {
            v.push(format!("{}a{}b{}", c, c, c));
        }
    }
    v
}

#[test]
fn white_space_matches_std_for_every_char_below_0x3100() {
    for u in 0u32..0x3100 {
        if let Some(c) = char::from_u32(u) {
            assert_eq!(is_white_space(c), c.is_whitespace(), "U+{:04X}", u);
        }
    }
    assert!(!is_white_space('\u{FEFF}'));
    assert!(!is_white_space('\u{10FFFF}'));
}

#[test]
fn trim_matches_std_trim() {
    for s in samples() {
        assert_eq!(trim(&s), s.trim(), "{:?}", s);
    }
}

#[test]
fn trim_is_idempotent_on_samples() {
    for s in samples() {
        let once = trim(&s);
        assert_eq!(trim(once), once);
    }
}

#[test]
fn blank_means_only_white_space() {
    assert!(is_blank(""));
    assert!(is_blank(" \t\n\u{3000}"));
    assert!(!is_blank(" x "));
    for s in samples() {
        assert_eq!(is_blank(&s), s.trim().is_empty(), "{:?}", s);
    }
}

#[test]
fn word_count_matches_split_whitespace() {
    assert_eq!(word_count(""), 0);
    assert_eq!(word_count("uno  due\ttre\nquattro"), 4);
    assert_eq!(word_count("   "), 0);
    for s in samples() {
        assert_eq!(word_count(&s), s.split_whitespace().count(), "{:?}", s);
    }
}

#[test]
fn decimal_string_writes_numbers() {
    assert_eq!(decimal_string(0), "0");
    assert_eq!(decimal_string(7), "7");
    assert_eq!(decimal_string(10), "10");
    assert_eq!(decimal_string(1234567890), "1234567890");
    assert_eq!(decimal_string(usize::MAX), usize::MAX.to_string());
    for n in 0usize..2000 {
        assert_eq!(decimal_string(n), n.to_string());
    }
}

#[test]
fn parse_i32_matches_std_parse() {
    let inputs = [
        "", "+", "-", "0", "-0", "+0", "+12", "-12", "12", "007", "2147483647", "2147483648",
        "-2147483648", "-2147483649", "12a", " 1", "1 ", "99999999999999999999",
        "-99999999999999999999", "٣", "1_000", "--1", "+-1", "0x10", "4294967296",
        "00000000000000000000000000012",
    ];
    for s in inputs {
        assert_eq!(parse_i32(s), s.parse::<i32>().ok(), "{:?}", s);
    }
}

#[test]
fn parse_i32_exact_values() {
    assert_eq!(parse_i32("812"), Some(812));
    assert_eq!(parse_i32("-2147483648"), Some(i32::MIN));
    assert_eq!(parse_i32("2147483647"), Some(i32::MAX));
    assert_eq!(parse_i32("2147483648"), None);
    assert_eq!(parse_i32("abc"), None);
}

#[test]
fn chars_and_equality() {
    assert_eq!(chars_of("héllo"), vec!['h', 'é', 'l', 'l', 'o']);
    assert!(str_equal("auto", "auto"));
    assert!(!str_equal("auto", "aut"));
    assert!(!str_equal("it", "en"));
    assert!(str_equal("", ""));
}
