use shilpo_m3e::strings::{
    chars_of, char_is_whitespace, push_decimal, replace_all_str, str_eq, str_is_blank,
    str_starts_with,
};
use shilpo_m3e::text::{
    char_len_utf16, char_len_utf8, line_breaks_to_spaces_bytes, utf16_len_of,
    utf8_offset_from_utf16,
};

#[test]
fn char_widths_match_std() {
    for c in ['a', 'é', 'ক', '🙂', '\u{7f}', '\u{80}', '\u{7ff}', '\u{800}', '\u{ffff}', '\u{10000}'] {
        assert_eq!(char_len_utf8(c), c.len_utf8(), "{c:?}");
        assert_eq!(char_len_utf16(c), c.len_utf16(), "{c:?}");
    }
}

#[test]
fn utf16_length_and_offsets() {
    let s = "a🙂é";
    assert_eq!(utf16_len_of(s), s.encode_utf16().count());
    assert_eq!(utf16_len_of(""), 0);
    assert_eq!(utf8_offset_from_utf16(s, 0), 0);
    assert_eq!(utf8_offset_from_utf16(s, 1), 1);
    // An offset inside the surrogate pair rounds up to the next boundary.
    assert_eq!(utf8_offset_from_utf16(s, 2), 5);
    assert_eq!(utf8_offset_from_utf16(s, 3), 5);
    assert_eq!(utf8_offset_from_utf16(s, 4), 7);
    assert_eq!(utf8_offset_from_utf16(s, 100), 7);
}

#[test]
fn line_breaks_become_spaces_byte_for_byte() {
    assert_eq!(line_breaks_to_spaces_bytes("a\nb\r\nc"), b"a b  c".to_vec());
    assert_eq!(line_breaks_to_spaces_bytes("é\n"), "é ".as_bytes().to_vec());
    assert_eq!(line_breaks_to_spaces_bytes(""), Vec::<u8>::new());
}

#[test]
fn string_helpers() {
    assert_eq!(chars_of("aé🙂"), vec!['a', 'é', '🙂']);
    assert!(str_eq("same", "same"));
    assert!(!str_eq("same", "Same"));
    assert!(str_starts_with("bn-IN", "bn"));
    assert!(!str_starts_with("b", "bn"));
    assert!(str_starts_with("anything", ""));
    assert!(str_is_blank(""));
    assert!(str_is_blank(" \t\n\u{3000}"));
    assert!(!str_is_blank(" x "));
    assert!(char_is_whitespace('\u{a0}'));
    assert!(!char_is_whitespace('x'));
}

#[test]
fn replace_all_matches_std_replace() {
    for (s, p, r) in [
        ("{count} of {count}", "{count}", "7"),
        ("aaa", "aa", "b"),
        ("", "x", "y"),
        ("no match", "zz", "!"),
        ("৩৩", "৩", "3"),
    ] {
        assert_eq!(replace_all_str(s, p, r), s.replace(p, r));
    }
}

#[test]
fn decimal_digits_in_both_scripts() {
    let mut out = String::from("#");
    push_decimal(&mut out, 0, false);
    assert_eq!(out, "#0");
    let mut out = String::new();
    push_decimal(&mut out, 1234567890, true);
    assert_eq!(out, "১২৩৪৫৬৭৮৯০");
    let mut out = String::new();
    push_decimal(&mut out, u64::MAX, false);
    assert_eq!(out, u64::MAX.to_string());
}
