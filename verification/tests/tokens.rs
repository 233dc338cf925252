use tortuga::compiler::parser::tokens::Tokens;
use tortuga::{ErrorKind, Kind, Lexeme, LexicalError, Location, SyntacticalError, Token};

fn token(text: &str, kind: Kind) -> Token {
    Token::new(Lexeme::from_str(text), kind)
}

fn new_tokens() -> Tokens {
    Tokens::from(vec![
        token("1", Kind::Number),
        Token::new(Lexeme::new(Location::from("1"), "1+"), Kind::Plus),
        Token::new(Lexeme::new(Location::from("1+"), "1+1"), Kind::Number),
    ])
}

#[test]
fn backtrack_unmarked() {
    let mut tokens = new_tokens();

    tokens.next().unwrap();

    let expected = tokens.clone();

    tokens.backtrack();

    assert_eq!(tokens, expected);
}

#[test]
fn backtrack_marked() {
    let mut tokens = new_tokens();

    tokens.next().unwrap();

    let expected = tokens.clone();

    tokens.mark();
    tokens.backtrack();

    assert_eq!(tokens, expected);
}

#[test]
fn backtrack_to_mark() {
    let mut tokens = new_tokens();

    tokens.mark();
    tokens.next().unwrap();
    tokens.next().unwrap();
    tokens.backtrack();

    assert_eq!(tokens.peek_kind(), Some(Kind::Number));
    assert_eq!(tokens.next(), Some(token("1", Kind::Number)));
}

#[test]
fn has_next_when_empty() {
    let tokens = Tokens::default();

    assert!(!tokens.has_next());
}

#[test]
fn has_next_with_tokens() {
    let tokens = new_tokens();

    assert!(tokens.has_next());
}

#[test]
fn has_next_with_tokens_peeked() {
    let tokens = new_tokens();

    tokens.peek().unwrap();

    assert!(tokens.has_next());
}

#[test]
fn next_matches_when_empty() {
    let tokens = Tokens::default();

    assert_eq!(tokens.next_matches(Kind::Number), None);
}

#[test]
fn next_matches_with_tokens() {
    let tokens = new_tokens();

    assert_eq!(tokens.next_matches(Kind::Number), Some(true));
    assert_eq!(tokens.next_matches(Kind::Identifier), Some(false));
}

#[test]
fn next_matches_with_tokens_peeked() {
    let tokens = new_tokens();

    tokens.peek().unwrap();

    assert_eq!(tokens.next_matches(Kind::Number), Some(true));
    assert_eq!(tokens.next_matches(Kind::Identifier), Some(false));
}

#[test]
fn next_if_match_when_expected_empty() {
    let mut tokens = new_tokens();

    assert_eq!(tokens.next_if_match(&[][..]), None);
}

#[test]
fn next_if_match_when_empty() {
    let mut tokens = Tokens::default();

    assert_eq!(tokens.next_if_match(&[Kind::Number][..]), None);
}

#[test]
fn next_if_match_with_tokens() {
    let mut tokens = new_tokens();

    assert_eq!(
        tokens.next_if_match(&[Kind::Number][..]),
        Some(token("1", Kind::Number))
    );
}

#[test]
fn next_if_match_with_tokens_peeked() {
    let mut tokens = new_tokens();

    tokens.peek().unwrap();

    assert_eq!(
        tokens.next_if_match(&[Kind::Number][..]),
        Some(token("1", Kind::Number))
    );
}

#[test]
fn peek_kind_empty() {
    let tokens = Tokens::from(vec![]);

    assert_eq!(tokens.peek_kind(), None);
}

#[test]
fn peek_kind_with_tokens() {
    let tokens = new_tokens();

    assert_eq!(tokens.peek_kind(), Some(Kind::Number));
}

#[test]
fn peek_kind_then_next() {
    let mut tokens = new_tokens();

    tokens.next().unwrap();
    tokens.peek_kind().unwrap();

    assert_eq!(
        tokens.next(),
        Some(Token::new(Lexeme::new(Location::from("1"), "1+"), Kind::Plus))
    );
}

#[test]
fn peek_kind_multiple() {
    let mut tokens = new_tokens();

    assert_eq!(tokens.peek_kind(), tokens.peek_kind());
    assert_eq!(tokens.next(), Some(token("1", Kind::Number)));
}

#[test]
fn invalid_tokens() {
    let tokens = Tokens::try_from(vec![Err(LexicalError::new(
        Lexeme::from_str("|"),
        ErrorKind::Invalid,
    ))]);

    assert_eq!(
        tokens,
        Err(SyntacticalError::Lexical(vec![LexicalError::new(
            Lexeme::from_str("|"),
            ErrorKind::Invalid
        )]))
    )
}

#[test]
fn valid_tokens() {
    let tokens = Tokens::try_from(vec![Ok(token("1", Kind::Number)), Ok(token("+", Kind::Plus))]).unwrap();

    assert_eq!(tokens.peek_kind(), Some(Kind::Number));
    assert!(tokens.has_next());
}
