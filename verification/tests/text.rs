use pico_labs::text::{chars_of, is_whitespace, trim_bounds, trimmed_equals};

#[test]
fn chars_of_keeps_every_character() {
    assert_eq!(chars_of("héllo"), vec!['h', 'é', 'l', 'l', 'o']);
    assert_eq!(chars_of(""), Vec::<char>::new());
}

#[test]
fn whitespace_matches_std() {
    for code in 0u32..0x3100 {
        if let Some(c) = char::from_u32(code) {
            assert_eq!(is_whitespace(c), c.is_whitespace(), "{:?}", c);
        }
    }
}

#[test]
fn trim_bounds_match_str_trim() {
    for s in ["  led:red\n", "\u{3000}x\u{a0}", "   ", "", "a b", "\t\r\nq"] {
        let chars = chars_of(s);
        let (start, end) = trim_bounds(&chars);
        let trimmed: String = chars[start..end].iter().collect();
        assert_eq!(trimmed, s.trim());
    }
}

#[test]
fn trimmed_equals_compares_the_trimmed_text() {
    let word = chars_of("led:toggle");
    assert!(trimmed_equals(&chars_of(" led:toggle \r\n"), &word));
    assert!(trimmed_equals(&chars_of("led:toggle"), &word));
    assert!(!trimmed_equals(&chars_of("led: toggle"), &word));
    assert!(!trimmed_equals(&chars_of("led:toggl"), &word));
    assert!(!trimmed_equals(&chars_of(""), &word));
}
