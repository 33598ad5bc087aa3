use pseudo_selectors::ascii_case::names_match;

#[test]
fn names_match_up_to_ascii_case() {
    assert!(names_match("before", "before"));
    assert!(names_match("Before", "before"));
    assert!(names_match("BEFORE", "bEfOrE"));
    assert!(names_match("", ""));
    assert!(names_match("A", "a"));
    assert!(names_match("Z", "z"));
    assert!(names_match("-servo-Nonzero-border", "-SERVO-nonzero-BORDER"));
}

#[test]
fn names_of_different_length_do_not_match() {
    assert!(!names_match("before", "befor"));
    assert!(!names_match("", "a"));
    assert!(!names_match("link", "any-link"));
}

#[test]
fn only_letters_are_folded() {
    // Each pair is 32 apart, as `A` and `a` are, but holds no letter.
    assert!(!names_match("@", "`"));
    assert!(!names_match("[", "{"));
    assert!(!names_match("-", "\r"));
    assert!(!names_match("0", "\u{10}"));
}

#[test]
fn characters_outside_ascii_match_themselves_alone() {
    assert!(names_match("\u{e9}", "\u{e9}"));
    assert!(names_match("A\u{e9}", "a\u{e9}"));
    assert!(!names_match("\u{c9}", "\u{e9}"));
    assert!(!names_match("\u{212A}", "k"));
    assert!(!names_match("\u{212A}", "K"));
    assert!(!names_match("\u{17F}", "s"));
    // U+00C1 and U+00E1 are encoded as C3 81 and C3 A1: 32 apart in the
    // second byte.
    assert!(!names_match("\u{c1}", "\u{e1}"));
    // U+0141 is encoded as C5 81 and `A` with a byte after it is not.
    assert!(!names_match("\u{141}", "\u{161}"));
}
