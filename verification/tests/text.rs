use provider_quota::text::is_blank;

fn is_listed(c: char) -> bool {
    matches!(
        c,
        '\u{9}'..='\u{d}'
            | '\u{20}'
            | '\u{85}'
            | '\u{a0}'
            | '\u{1680}'
            | '\u{2000}'..='\u{200a}'
            | '\u{2028}'
            | '\u{2029}'
            | '\u{202f}'
            | '\u{205f}'
            | '\u{3000}'
    )
}

#[test]
fn a_character_is_blank_exactly_when_it_is_white_space() {
    let mut text = String::new();
    for c in '\u{0}'..=char::MAX {
        text.clear();
        text.push(c);
        assert_eq!(is_blank(&text), is_listed(c), "{:?}", c);
    }
}

#[test]
fn texts_are_blank_when_nothing_is_left_of_them() {
    assert!(is_blank(""));
    assert!(is_blank(" \r\n\u{a0}\u{2003}"));
    assert!(!is_blank("  x  "));
    assert!(!is_blank("\u{200b}"));
}
