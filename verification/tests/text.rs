use ergo_wasm_derive::text::same_text;

#[test]
fn equal_names_are_the_same_text() {
    assert!(same_text("Point", "Point"));
    assert!(same_text("", ""));
    assert!(same_text("Größe", "Größe"));
}

#[test]
fn names_are_compared_with_their_case() {
    assert!(!same_text("Point", "point"));
    assert!(!same_text("POINT", "Point"));
}

#[test]
fn different_names_are_not_the_same_text() {
    assert!(!same_text("Point", "Circle"));
    assert!(!same_text("Point", "Points"));
    assert!(!same_text("Points", "Point"));
    assert!(!same_text("", "Point"));
    assert!(!same_text("Point", "Poínt"));
}
