use tortuga::{Input, Lexeme, Location};

#[test]
fn peek_empty() {
    assert_eq!(Input::from("").peek(), None);
}

#[test]
fn peek_non_empty() {
    assert_eq!(Input::from("abc").peek(), Some('a'));
}

#[test]
fn peek_when_skipping() {
    let mut input = Input::from(";hello\r\n\t abc");

    while input.next_unless_eq('\n').is_some() {}
    input.skip_blank_space();

    assert_eq!(input.peek(), Some('a'));
}

#[test]
fn next_if_eq_when_equal() {
    assert_eq!(Input::from("abc").next_if_eq('a'), Some('a'));
}

#[test]
fn next_if_eq_when_not_equal() {
    assert_eq!(Input::from("abc").next_if_eq('b'), None);
}

#[test]
fn next_if_eq_when_empty() {
    assert_eq!(Input::from("").next_if_eq('a'), None);
}

#[test]
fn next_if_when_true() {
    assert_eq!(
        Input::from("abc").next_if(|c| c.is_ascii_alphabetic()),
        Some('a')
    );
}

#[test]
fn next_if_when_false() {
    assert_eq!(Input::from("abc").next_if(|c| c.is_ascii_digit()), None);
}

#[test]
fn next_if_when_empty() {
    assert_eq!(Input::from("").next_if(|_| true), None);
}

#[test]
fn next_normal() {
    assert_eq!(Input::from("abc").next(), Some('a'));
}

#[test]
fn next_when_skipping() {
    let mut input = Input::from("\t abc");

    assert!(input.skip_blank_space());
    assert_eq!(input.next(), Some('a'));
}

#[test]
fn next_when_skipping_until_end_of_line() {
    let mut input = Input::from("; abc");

    while input.next_unless_eq('\n').is_some() {}

    assert_eq!(input.next(), None);
}

#[test]
fn next_when_empty() {
    assert_eq!(Input::from("").next(), None);
}

#[test]
fn advance() {
    let mut input = Input::from("abc");

    input.next();
    input.advance();
    input.next_if_eq('b');

    let actual = input.peek_lexeme();
    let expected = Lexeme::new(Location::default() + "a", "b");

    assert_eq!(actual, expected);
    assert_eq!(input.advance(), expected);
}

#[test]
fn lexeme() {
    let mut input = Input::from("abc");

    input.next();
    input.next_if_eq('b');

    let first = input.advance();

    input.next_if(|c| c.is_ascii_alphabetic());

    let second = input.advance();
    let third = input.advance();

    assert_eq!(first, Lexeme::new(Location::default(), "ab"));
    assert_eq!(second, Lexeme::new(Location::from("ab"), "c"));
    assert_eq!(third, Lexeme::new(Location::from("abc"), ""));
}

#[test]
fn lexeme_when_empty() {
    assert_eq!(
        Input::from("abc").advance(),
        Lexeme::new(Location::default(), "")
    );
}

#[test]
fn lexeme_owned_or_borrowed() {
    let input = "Hello, World!";
    let lexeme_str = Lexeme::from_str(input);
    let lexeme_string = Lexeme::from_string(input.to_string());

    assert_eq!(lexeme_str.as_str(), input);
    assert_eq!(lexeme_string.as_str(), input);
    assert_eq!(lexeme_str, lexeme_string);
}

#[test]
fn index_source() {
    let start = Location::new(1, 8, 7);
    let input = "Hello, World!";
    let lexeme = Lexeme::new(start, &input[start.offset()..]);

    assert_eq!(lexeme.len(), 6);
    assert!(!lexeme.is_empty());
    assert_eq!(lexeme, Lexeme::new(Location::from("Hello, "), "World!"));
}

#[test]
fn empty() {
    let lexeme = Lexeme::new(Location::default(), "");

    assert_eq!(lexeme.len(), 0);
    assert!(lexeme.is_empty());
}

#[test]
fn lexeme_length_counts_bytes() {
    let lexeme = Lexeme::new(Location::default(), "〞a");

    assert_eq!(lexeme.len(), 4);
    assert_eq!(lexeme.to_owned(), lexeme);
}
