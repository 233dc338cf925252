use tortuga::UnicodeProperties;
use tortuga::{ErrorKind, Kind, Lexeme, LexicalError, Location, Scanner, Token};

fn validate(kind: Kind) {
    let input = kind.to_string();
    let mut scanner: Scanner<'_> = Scanner::from(input.as_str());

    assert_eq!(
        scanner.next(),
        Some(Ok(Token::new(
            Lexeme::new(Location::default(), input.as_str()),
            kind
        )))
    );
    assert_eq!(scanner.next(), None);
}

#[test]
fn scan_simple() {
    validate(Kind::Plus);
    validate(Kind::Minus);
    validate(Kind::Star);
    validate(Kind::Slash);
    validate(Kind::Percent);
    validate(Kind::Caret);
    validate(Kind::Tilde);
    validate(Kind::Equal);
    validate(Kind::NotEqual);
    validate(Kind::LessThan);
    validate(Kind::LessThanOrEqualTo);
    validate(Kind::GreaterThan);
    validate(Kind::GreaterThanOrEqualTo);
    validate(Kind::Comma);
    validate(Kind::Underscore);
    validate(Kind::LeftParenthesis);
    validate(Kind::RightParenthesis);
    validate(Kind::LeftBrace);
    validate(Kind::RightBrace);
    validate(Kind::LeftBracket);
    validate(Kind::RightBracket);
}

#[test]
fn skips_invalid_characters() {
    let input = "\u{0E01EF}\u{0E01EF}\u{0E01EF}\u{0E01EF} +";
    let mut scanner: Scanner<'_> = Scanner::from(input);

    let bad = &input[..input.len() - 2];

    assert_eq!(
        scanner.next(),
        Some(Err(LexicalError::new(
            Lexeme::new(Location::default(), bad),
            ErrorKind::Invalid
        )))
    );

    assert_eq!(
        scanner.next(),
        Some(Ok(Token::new(
            Lexeme::new(Location::from(&input[..input.len() - 1]), "+"),
            Kind::Plus
        )))
    );
    assert_eq!(scanner.next(), None);
}

fn validate_identifier(identifier: &str) {
    let mut scanner: Scanner<'_> = Scanner::from(identifier);

    assert_eq!(
        scanner.next(),
        Some(Ok(Token::new(
            Lexeme::new(Location::default(), identifier),
            Kind::Identifier
        )))
    );
    assert_eq!(scanner.next(), None);
}

#[test]
fn scan_identifier() {
    validate_identifier("x");
    validate_identifier("x2");
    validate_identifier("x_2");
    validate_identifier("x__2");
    validate_identifier("xx");
    validate_identifier("x__");
    validate_identifier("x_y_z");
    validate_identifier("i");
    validate_identifier("I");
}

fn validate_number(number: &str) {
    let mut scanner: Scanner<'_> = Scanner::from(number);

    assert_eq!(
        scanner.next(),
        Some(Ok(Token::new(
            Lexeme::new(Location::default(), number),
            Kind::Number
        ))),
        "{}",
        number
    );
    assert_eq!(scanner.next(), None);
}

#[test]
fn scan_number() {
    validate_number("0");
    validate_number("2");
    validate_number("21");
    validate_number("100");
    validate_number(".100");
    validate_number(".5");
    validate_number("1.0");
    validate_number("4.5");
    validate_number("0.5");
    validate_number("10000.5002");
    validate_number("7.002");

    validate_number("2#0");
    validate_number("16#F");
    validate_number("3#21");
    validate_number("2#100");
    validate_number("2#.100");
    validate_number("10#.5");
    validate_number("12#1.0");
    validate_number("20#4.5");
    validate_number("30#0.5");
    validate_number("36#10000.5002");
    validate_number("32#7.002");
    validate_number("37#1.0");
    validate_number("2#4.0");
}

fn invalidate_number(number: &str) {
    let mut scanner: Scanner<'_> = Scanner::from(number);

    assert_eq!(
        scanner.next(),
        Some(Err(LexicalError::new(
            Lexeme::new(Location::default(), number),
            ErrorKind::Number
        )))
    );
    assert_eq!(scanner.next(), None);
}

#[test]
fn scan_invalid_number() {
    invalidate_number(".");
    invalidate_number("20#.");
    invalidate_number("008#1.0");
    invalidate_number("0008");
}

#[test]
fn number_without_radix() {
    let input = "#1.0";
    let mut scanner: Scanner<'_> = Scanner::from(input);

    assert_eq!(
        scanner.next(),
        Some(Err(LexicalError::new(
            Lexeme::new(Location::default(), "#"),
            ErrorKind::Invalid
        )))
    );
    assert_eq!(
        scanner.next(),
        Some(Ok(Token::new(Lexeme::new(Location::from("#"), "1.0"), Kind::Number)))
    );
    assert_eq!(scanner.next(), None);
}

#[test]
fn empty_number_without_radix() {
    let input = "#.";
    let mut scanner: Scanner<'_> = Scanner::from(input);

    assert_eq!(
        scanner.next(),
        Some(Err(LexicalError::new(
            Lexeme::new(Location::default(), "#"),
            ErrorKind::Invalid
        )))
    );
    assert_eq!(
        scanner.next(),
        Some(Err(LexicalError::new(
            Lexeme::new(Location::from("#"), "."),
            ErrorKind::Number
        )))
    );
    assert_eq!(scanner.next(), None);
}

#[test]
fn skip_comment() {
    let input = "; hello, world!\n \t42";

    assert_forty_two(input);
}

fn assert_forty_two(input: &str) {
    let mut scanner: Scanner<'_> = Scanner::from(input);

    assert_eq!(
        scanner.next(),
        Some(Ok(Token::new(
            Lexeme::new(Location::from(&input[..input.len() - 2]), "42"),
            Kind::Number
        )))
    );
    assert_eq!(scanner.next(), None);
}

#[test]
fn skip_multiple_comments() {
    let input = "; hello, world!\n \t; foobar\n\n42";

    assert_forty_two(input);
}

#[test]
fn scan_identifier_starting_with_number() {
    let input = "2x";
    let mut scanner: Scanner<'_> = Scanner::from(input);

    assert_eq!(
        scanner.next(),
        Some(Ok(Token::new(
            Lexeme::new(Location::default(), "2"),
            Kind::Number
        )))
    );
    assert_eq!(
        scanner.next(),
        Some(Ok(Token::new(Lexeme::new(Location::from("2"), "x"), Kind::Identifier)))
    );
    assert_eq!(scanner.next(), None);
}

#[test]
fn pattern_white_space() {
    assert!('\u{000B}'.is_pattern_white_space());
    assert!(!'a'.is_pattern_white_space());
}
