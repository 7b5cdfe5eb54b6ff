use paywall::text::same_text;

#[test]
fn equal_texts_are_the_same() {
    assert!(same_text("", ""));
    assert!(same_text("premium", "premium"));
    assert!(same_text("grüße, 世界", "grüße, 世界"));
}

#[test]
fn different_texts_are_not_the_same() {
    assert!(!same_text("premium", "premiun"));
    assert!(!same_text("premium", "premium "));
    assert!(!same_text("", "a"));
    assert!(!same_text("basic", "Basic"));
    assert!(!same_text("é", "e\u{301}"));
}
