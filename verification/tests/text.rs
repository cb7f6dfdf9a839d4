use chigua::text::{joined, same_text, trim_end_matching};

#[test]
fn trim_removes_every_trailing_repeat() {
    assert_eq!(trim_end_matching("ab%&%&%&%&", "%&%&"), "ab");
    assert_eq!(trim_end_matching("ab%&%&%&", "%&%&"), "ab%&");
    assert_eq!(trim_end_matching("ab", "%&%&"), "ab");
    assert_eq!(trim_end_matching("", "%&%&"), "");
    assert_eq!(trim_end_matching("%&%&", "%&%&"), "");
}

#[test]
fn trim_with_empty_pattern_keeps_text() {
    assert_eq!(trim_end_matching("abc", ""), "abc");
}

#[test]
fn trim_agrees_with_std() {
    for s in ["x%&%&y%&%&", "草榴%&%&%&%&", "%&%&%", "a%&%&b"] {
        assert_eq!(trim_end_matching(s, "%&%&"), s.trim_end_matches("%&%&"));
    }
}

#[test]
fn same_text_compares_characters() {
    assert!(same_text("name", "name"));
    assert!(!same_text("name", "names"));
    assert!(!same_text("name", "nime"));
    assert!(same_text("", ""));
}

#[test]
fn joined_concatenates() {
    assert_eq!(joined("caoliu_", "42"), "caoliu_42");
    assert_eq!(joined("", ""), "");
}
