use fxmini::text::{
    chars_of, contains, fill, is_control, is_white_space, push_decimal, same_ignoring_case,
    to_ascii_lower, trim,
};

fn every_char() -> Vec<char> {
    let mut all = Vec::new();
    for code in 0..=0x10ffffu32 {
        if let Some(c) = char::from_u32(code) {
            all.push(c);
        }
    }
    all
}

#[test]
fn white_space_is_what_unicode_says() {
    for c in every_char() {
        assert_eq!(is_white_space(c), c.is_whitespace(), "{c:?}");
    }
}

#[test]
fn control_characters_are_what_unicode_says() {
    for c in every_char() {
        assert_eq!(is_control(c), c.is_control(), "{c:?}");
    }
}

#[test]
fn only_latin_capitals_are_lowered() {
    for c in every_char() {
        assert_eq!(to_ascii_lower(c), c.to_ascii_lowercase(), "{c:?}");
    }
}

#[test]
fn trimming_agrees_with_the_standard_library() {
    for s in ["", " ", "a", " a ", "\u{3000}音 乐\u{a0}\t", "\r\n\u{2003}x\u{85}", "no trim", "\u{200b}x"] {
        assert_eq!(trim(s), s.trim());
    }
}

#[test]
fn case_is_ignored_for_latin_letters_only() {
    assert!(same_ignoring_case("CoN", "cOn"));
    assert!(!same_ignoring_case("con", "cons"));
    assert!(!same_ignoring_case("É", "é"));
    assert!(same_ignoring_case("", ""));
}

#[test]
fn searching_agrees_with_the_standard_library() {
    for haystack in ["", "音乐", "My Music 2", "Musi", "MMusicc", "{}"] {
        for needle in ["", "音乐", "Music", "{}", "2"] {
            assert_eq!(contains(haystack, needle), haystack.contains(needle));
        }
    }
}

#[test]
fn placeholders_are_filled_like_replace() {
    for template in ["", "{}", "{}{}", "{{}}", "a {} b {}", "{ }", "}{", "{{}"] {
        for value in ["", "x.fac", "{}", "音"] {
            assert_eq!(fill(template, value), template.replace("{}", value));
        }
    }
}

#[test]
fn decimal_figures_agree_with_format() {
    for n in [0u64, 7, 10, 99, 100, 1234567890, u64::MAX] {
        let mut s = String::from("n=");
        push_decimal(&mut s, n);
        assert_eq!(s, format!("n={n}"));
    }
}

#[test]
fn characters_are_collected_in_order() {
    assert_eq!(chars_of("a音b"), vec!['a', '音', 'b']);
    assert!(chars_of("").is_empty());
}
