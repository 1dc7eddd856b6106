use site_core::text::same_text;

#[test]
fn equal_texts_are_the_same() {
    assert!(same_text("", ""));
    assert!(same_text("example", "example"));
    assert!(same_text("caf\u{e9} \u{1f600}", "caf\u{e9} \u{1f600}"));
}

#[test]
fn texts_of_different_length_differ() {
    assert!(!same_text("example", "exampl"));
    assert!(!same_text("example", "example "));
    assert!(!same_text("", "e"));
}

#[test]
fn texts_that_differ_in_one_character_differ() {
    assert!(!same_text("example", "Example"));
    assert!(!same_text("example", "exbmple"));
    assert!(!same_text("example", "exampld"));
    assert!(!same_text("caf\u{e9}", "caf\u{e8}"));
}
