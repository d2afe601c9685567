use eigen_kernel::text::{char_is_whitespace, text_is_blank};

#[test]
fn empty_and_whitespace_only_strings_are_blank() {
    assert!(text_is_blank(""));
    assert!(text_is_blank(" "));
    assert!(text_is_blank(" \t\r\n"));
    assert!(text_is_blank("\u{00A0}\u{2003}\u{3000}"));
}

#[test]
fn a_string_with_any_other_character_is_not_blank() {
    assert!(!text_is_blank("bell-state"));
    assert!(!text_is_blank("  x  "));
    assert!(!text_is_blank("\u{200B}"));
    assert!(!text_is_blank("\u{180E}"));
}

#[test]
fn blank_agrees_with_trimming() {
    for s in ["", " ", "a", " a ", "\t\n", "\u{0085}", "\u{FEFF}", "é ", "\u{2028}\u{2029}"] {
        assert_eq!(text_is_blank(s), s.trim().is_empty());
    }
}

#[test]
fn whitespace_agrees_with_the_standard_library_on_every_character() {
    let mut n: u32 = 0;
    while n <= 0x10FFFF {
        if let Some(c) = char::from_u32(n) {
            assert_eq!(char_is_whitespace(c), c.is_whitespace());
        }
        n += 1;
    }
}
