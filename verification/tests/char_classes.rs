use xgreeter::text::{blank, char_is_control, char_is_whitespace};

#[test]
fn control_class_matches_std_on_every_char() {
    for c in (0u32..=0x10FFFF).filter_map(char::from_u32) {
        assert_eq!(char_is_control(c), c.is_control(), "{:?}", c);
    }
}

#[test]
fn whitespace_class_matches_std_on_every_char() {
    for c in (0u32..=0x10FFFF).filter_map(char::from_u32) {
        assert_eq!(char_is_whitespace(c), c.is_whitespace(), "{:?}", c);
    }
}

#[test]
fn blank_is_trim_then_empty() {
    for s in ["", " ", "\t\n\u{3000}\u{2028}", " a ", "0xc000022070", "\u{200b}"] {
        assert_eq!(blank(&s.to_string()), s.trim().is_empty(), "{:?}", s);
    }
}
