use tortuga::compile::location::{LexemeSource, Location};

#[test]
fn location_default_location() {
    assert_eq!(Location::default(), Location::new(1, 1, 0));
}

#[test]
fn location_next_line_when_first_column() {
    let mut location = Location::default();

    location.next_line();

    assert_eq!(location, Location::new(2, 1, '\n'.len_utf8()));
}

#[test]
fn location_next_line_when_not_first_column() {
    let mut location = Location::default();
    let c = '〞';

    location.add_column(c);
    location.next_line();
    location.add_column(c);

    assert_eq!(
        location,
        Location::new(2, 2, (2 * c.len_utf8()) + '\n'.len_utf8())
    );
}

#[test]
fn increment_moves_by_character() {
    let mut location = Location::default();

    location.increment('〞');
    assert_eq!(location, Location::new(1, 2, 3));

    location.increment('\n');
    assert_eq!(location, Location::new(2, 1, 4));
    assert_eq!(location.offset(), 4);
}

#[test]
fn lexeme_between_locations() {
    let source = "a〞b\nc";
    let mut start = Location::default();
    start.increment('a');
    let mut end = start;
    end.increment('〞');
    end.increment('b');

    assert_eq!(source.lexeme(&start, &end), "〞b");
    assert_eq!(source.lexeme(&end, &end), "");
}
