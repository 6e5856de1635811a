use decide::text::{blank, char_is_whitespace};

#[test]
fn white_space_is_what_std_calls_white_space_for_every_character() {
    for code in 0u32..=0x10FFFF {
        if let Some(c) = char::from_u32(code) {
            assert_eq!(char_is_whitespace(c), c.is_whitespace(), "U+{code:04X}");
        }
    }
}

#[test]
fn a_text_of_unicode_spaces_is_blank() {
    assert!(blank(" \t\n\u{85}\u{A0}\u{1680}\u{2000}\u{200A}\u{2028}\u{2029}\u{202F}\u{205F}\u{3000}"));
    assert!(blank(""));
    assert!(!blank(" x "));
    assert!(!blank("\u{200B}"));
}
