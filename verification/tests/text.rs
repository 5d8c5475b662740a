use mover::text::text_eq;

#[test]
fn texts_are_equal_character_by_character() {
    assert!(text_eq("", ""));
    assert!(text_eq("enter", "enter"));
    assert!(!text_eq("enter", "Enter"));
    assert!(!text_eq("enter", "ente"));
    assert!(!text_eq("ente", "enter"));
    assert!(!text_eq("enter", "entex"));
    assert!(text_eq("\u{e9}\u{212A}", "\u{e9}\u{212A}"));
    assert!(!text_eq("\u{e9}", "e"));
}
