use tortuga::actor::reference::Reference;

#[test]
fn new_unparented() {
    assert_ne!(Reference::new(), Reference::new())
}

#[test]
fn new_parented() {
    let parent = Reference::new();

    assert_eq!(
        Reference::new_parented(&parent, "a"),
        Reference::new_parented(&parent, "a")
    );
    assert_ne!(
        Reference::new_parented(&parent, "a"),
        Reference::new_parented(&parent, "b")
    );
}

#[test]
fn random_references_are_version_four() {
    let id = Reference::new().id();

    assert_eq!((id >> 76) & 0xF, 4);
    assert_eq!((id >> 62) & 0x3, 2);
}

#[test]
fn parented_reference_is_version_five() {
    let parent = Reference::new();
    let id = Reference::new_parented(&parent, "child").id();

    assert_eq!((id >> 76) & 0xF, 5);
    assert_ne!(id, parent.id());
}
