//! The small text forms.

use pf_client_core::text::{
    char_is_space, copy_opt, has_char, join, lower, parse_uint, same, split_once, to_decimal, trim,
};

#[test]
fn only_the_ends_of_a_value_are_trimmed() {
    assert_eq!(trim("  a b\t\n"), "a b");
    assert_eq!(trim("\u{3000}x\u{a0}"), "x");
    assert_eq!(trim(" \u{2003} "), "");
    assert_eq!(trim(""), "");
    assert!(char_is_space('\u{85}'));
    assert!(!char_is_space('\u{200b}'), "a zero-width space is no white space");
}

#[test]
fn white_space_is_what_the_language_says_it_is() {
    for n in 0u32..0x1_1000 {
        if let Some(c) = char::from_u32(n) {
            assert_eq!(char_is_space(c), c.is_whitespace(), "{n:#x}");
        }
    }
}

#[test]
fn lower_case_touches_ascii_letters_only() {
    assert_eq!(lower("OnLY Ä 9"), "only Ä 9");
}

#[test]
fn a_split_cuts_at_the_first_match() {
    assert_eq!(split_once("a:b:c", ':'), Some(("a".into(), "b:c".into())));
    assert_eq!(split_once(":x", ':'), Some(("".into(), "x".into())));
    assert_eq!(split_once("abc", ':'), None);
    assert!(has_char("abc", 'b'));
    assert!(!has_char("abc", 'd'));
}

#[test]
fn a_number_reads_as_the_standard_parser_reads_it() {
    for s in ["0", "7", "+7", "007", "255", "256", "", "+", "-1", "1a", " 1", "４"] {
        assert_eq!(parse_uint(s, 255), s.parse::<u8>().ok().map(u64::from), "{s:?}");
    }
    assert_eq!(parse_uint("18446744073709551615", u64::MAX), Some(u64::MAX));
    assert_eq!(parse_uint("18446744073709551616", u64::MAX), None);
}

#[test]
fn a_decimal_reads_back() {
    for n in [0u64, 9, 10, 11, 99, 100, 9777, u64::MAX] {
        assert_eq!(to_decimal(n), n.to_string());
        assert_eq!(parse_uint(&to_decimal(n), u64::MAX), Some(n));
    }
}

#[test]
fn joining_and_comparing_go_by_characters() {
    assert_eq!(join("ab", "cd"), "abcd");
    assert_eq!(join("", "ü"), "ü");
    assert!(same("grün", "grün"));
    assert!(!same("grün", "grun"));
    assert!(!same("a", "ab"));
    assert_eq!(copy_opt(&Some("x".to_string())), Some("x".to_string()));
    assert_eq!(copy_opt(&None), None);
}
