use ronajo::text::{char_is_space, decimal_string, split_words, str_contains, trim_text};

#[test]
fn space_matches_std() {
    for u in 0u32..=0x10FFFF {
        if let Some(c) = char::from_u32(u) {
            assert_eq!(char_is_space(c), c.is_whitespace(), "{:x}", u);
        }
    }
}

#[test]
fn decimals() {
    assert_eq!(decimal_string(0), "0");
    assert_eq!(decimal_string(9), "9");
    assert_eq!(decimal_string(10), "10");
    assert_eq!(decimal_string(u64::MAX), u64::MAX.to_string());
}

#[test]
fn trimming_matches_std() {
    for s in ["", "   ", " a ", "\u{3000}x y\u{a0}", "ab", "\t\nq"] {
        assert_eq!(trim_text(s), s.trim());
    }
}

#[test]
fn words_match_std() {
    for s in ["", "  ", "a b  c", " lead", "trail ", "\u{2003}x\u{85}y"] {
        let expected: Vec<String> = s.split_whitespace().map(|w| w.to_string()).collect();
        assert_eq!(split_words(s), expected);
    }
}

#[test]
fn substring_search() {
    assert!(str_contains("bash: vlc: command not found", "command not found"));
    assert!(!str_contains("command not foun", "command not found"));
    assert!(str_contains("abc", ""));
}
