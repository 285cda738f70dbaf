use mofa_macos_ime::text::{
    ascii_lower, chars_eq, chars_of, contains, is_blank, is_whitespace, lower, matches_at,
    parse_u16, slice, split, starts_with, string_of, strip_prefix, trim, trim_end_index,
    trim_start_index,
};

fn cv(s: &str) -> Vec<char> {
    s.chars().collect()
}

#[test]
fn whitespace_agrees_with_std_on_every_char() {
    for n in 0u32..=0x10FFFF {
        if let Some(c) = char::from_u32(n) {
            assert_eq!(is_whitespace(c), c.is_whitespace(), "U+{:04X}", n);
        }
    }
}

#[test]
fn ascii_lower_agrees_with_std_on_every_char() {
    for n in 0u32..=0x10FFFF {
        if let Some(c) = char::from_u32(n) {
            assert_eq!(ascii_lower(c), c.to_ascii_lowercase(), "U+{:04X}", n);
        }
    }
}

#[test]
fn chars_and_strings_round_trip() {
    assert_eq!(chars_of("héllo 世界"), cv("héllo 世界"));
    assert_eq!(string_of(&vec!['a', 'b', '好']), "ab好");
    assert_eq!(string_of(&Vec::new()), "");
    assert_eq!(string_of(&chars_of("x…y")), "x…y");
}

#[test]
fn chars_eq_compares_whole_text() {
    assert!(chars_eq(&cv("cmd"), "cmd"));
    assert!(!chars_eq(&cv("cmd"), "cm"));
    assert!(!chars_eq(&cv("cm"), "cmd"));
    assert!(!chars_eq(&cv("cmD"), "cmd"));
    assert!(chars_eq(&cv(""), ""));
}

#[test]
fn trim_agrees_with_std() {
    for s in ["", " ", "a", "  a b  ", "\t\n x \r\n", "\u{3000}中 文\u{2003}", " \u{a0} "] {
        assert_eq!(string_of(&trim(&cv(s))), s.trim(), "{:?}", s);
        assert_eq!(is_blank(&cv(s)), s.trim().is_empty(), "{:?}", s);
    }
    assert_eq!(trim_start_index(&cv("  ab ")), 2);
    assert_eq!(trim_end_index(&cv("  ab "), 2), 4);
    assert_eq!(trim_end_index(&cv("    "), 4), 4);
}

#[test]
fn lower_only_touches_ascii() {
    assert_eq!(string_of(&lower(&cv("Cmd+ShIFT+É+好"))), "cmd+shift+É+好");
}

#[test]
fn slice_copies_the_range() {
    assert_eq!(slice(&cv("abcdef"), 1, 4), cv("bcd"));
    assert_eq!(slice(&cv("abcdef"), 3, 3), cv(""));
    assert_eq!(slice(&cv("abcdef"), 0, 6), cv("abcdef"));
}

#[test]
fn prefix_and_search() {
    assert!(starts_with(&cv("hotkey=fn"), "hotkey="));
    assert!(!starts_with(&cv("hotkey"), "hotkey="));
    assert!(starts_with(&cv("x"), ""));
    assert_eq!(strip_prefix(&cv("hotkey=fn"), "hotkey="), Some(cv("fn")));
    assert_eq!(strip_prefix(&cv("hotkey="), "hotkey="), Some(cv("")));
    assert_eq!(strip_prefix(&cv("xhotkey=fn"), "hotkey="), None);
    assert!(matches_at(&cv("abcabc"), &cv("bc"), 4));
    assert!(!matches_at(&cv("abcabc"), &cv("bc"), 5));
    assert!(!matches_at(&cv("abcabc"), &cv("bc"), 7));
    assert!(contains(&cv("abcabd"), &cv("abd")));
    assert!(contains(&cv("abc"), &cv("")));
    assert!(contains(&cv(""), &cv("")));
    assert!(!contains(&cv("abc"), &cv("abcd")));
    assert!(!contains(&cv("abcabc"), &cv("cb")));
    assert!(contains(&cv("abc"), &cv("c")));
}

#[test]
fn parse_u16_agrees_with_std() {
    for s in [
        "0", "7", "007", "+5", "65535", "65536", "99999", "4294967296", "", "+", "-1", "12a",
        "a12", " 1", "1 ", "++1", "+0", "000000000000000000000000065535", "１２",
    ] {
        assert_eq!(parse_u16(&cv(s)), s.parse::<u16>().ok(), "{:?}", s);
    }
    assert_eq!(parse_u16(&cv("49")), Some(49));
}

#[test]
fn split_agrees_with_std() {
    for s in ["", "a", "+", "a+b", "a++b", "+a+", "cmd + shift+space"] {
        let got: Vec<String> = split(&cv(s), '+').iter().map(string_of).collect();
        let want: Vec<String> = s.split('+').map(String::from).collect();
        assert_eq!(got, want, "{:?}", s);
    }
}
