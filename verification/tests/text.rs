use tea_compiler::text::char_is_whitespace;

#[test]
fn unicode_white_space_is_whitespace() {
    for c in ['\u{85}', '\u{a0}', '\u{1680}', '\u{2000}', '\u{200a}', '\u{2028}', '\u{2029}', '\u{202f}', '\u{205f}', '\u{3000}', ' ', '\t', '\r'] {
        assert!(char_is_whitespace(c), "{:?}", c);
    }
    for c in ['\u{200b}', '\u{feff}', 'a', '\u{1f}', '\u{7f}', '\u{180e}'] {
        assert!(!char_is_whitespace(c), "{:?}", c);
    }
}
