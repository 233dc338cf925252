use tortuga::client::{step, Action, Event, Phase};
use tortuga::board::SwitchBoard;
use tortuga::compile::errors::LexicalError as CompileLexicalError;
use tortuga::compile::location::Location as CompileLocation;
use tortuga::compile::token::{Attachment, Kind as CompileKind, Lexeme as CompileLexeme, Token as CompileToken};
use tortuga::compiler::lexer::{tokenize, Token as YamlToken, TokenKind};
use tortuga::compiler::parser::tokens::Tokens;
use tortuga::compiler::reporter::Reporter;
use tortuga::compiler::scanner::scan_all;
use tortuga::compiler::transformer::transform;
use tortuga::web_assembly::{ExportDescription, Limit, Memory, MemoryType};
use tortuga::{Kind, Lexeme, Token};

#[test]
fn transform_exports_one_page_of_memory_as_io() {
    let module = transform().unwrap();

    assert_eq!(module.memories, vec![Memory::new(MemoryType::new(Limit::new(1, None)))]);
    assert_eq!(module.exports.len(), 1);
    assert_eq!(module.exports[0].name.bytes, b"io".to_vec());
    assert_eq!(module.exports[0].description, ExportDescription::Memory(0));
    assert!(module.types.is_empty());
    assert!(module.functions.is_empty());
    assert!(module.start.is_none());
}

#[test]
fn token_without_errors_is_valid() {
    let lexeme = CompileLexeme::new("+", CompileLocation::default());
    let token = CompileToken::new(Attachment::Empty(CompileKind::Plus), lexeme, vec![]);

    match token {
        CompileToken::Valid(valid) => assert_eq!(valid.kind(), CompileKind::Plus),
        CompileToken::Invalid(_) => panic!("expected a valid token"),
    }
}

#[test]
fn token_with_errors_is_invalid_of_the_attachment_kind() {
    let lexeme = CompileLexeme::new("2#", CompileLocation::default());
    let token = CompileToken::new(
        Attachment::Empty(CompileKind::Number),
        lexeme,
        vec![CompileLexicalError::ExpectedDigits],
    );

    match token {
        CompileToken::Invalid(invalid) => {
            assert_eq!(invalid.kind(), Some(CompileKind::Number));
            assert_eq!(invalid.errors(), &[CompileLexicalError::ExpectedDigits][..]);
        }
        CompileToken::Valid(_) => panic!("expected an invalid token"),
    }
}

#[test]
fn new_valid_and_new_invalid() {
    let valid = CompileToken::new_valid(
        Attachment::Empty(CompileKind::Star),
        CompileLexeme::new("*", CompileLocation::default()),
    );
    assert!(matches!(valid, CompileToken::Valid(_)));

    let invalid = CompileToken::new_invalid(
        None,
        CompileLexeme::new("@", CompileLocation::default()),
        vec![CompileLexicalError::UnexpectedCharacter],
    );
    match invalid {
        CompileToken::Invalid(invalid) => assert_eq!(invalid.kind(), None),
        CompileToken::Valid(_) => panic!("expected an invalid token"),
    }
}

#[test]
fn reporter_keeps_its_source() {
    let reporter = Reporter::from("1 + 2");

    assert_eq!(reporter.source(), "1 + 2");
}

#[test]
fn tokenize_yaml_document() {
    let tokens = tokenize(b"name: tortuga\nversion: 1\n");
    let expected: serde_yaml::Value = serde_yaml::from_str("name: tortuga\nversion: 1\n").unwrap();

    assert_eq!(tokens, vec![YamlToken { kind: TokenKind::Yaml(expected) }]);
}

#[test]
fn tokenize_scalar_is_not_the_bytes_handed_back() {
    let tokens = tokenize(b"42");

    assert_eq!(
        tokens,
        vec![YamlToken { kind: TokenKind::Yaml(serde_yaml::Value::Number(42.into())) }]
    );
}

#[test]
fn tokenize_malformed_yaml_gives_no_tokens() {
    assert!(tokenize(b"a: [1, 2").is_empty());
    assert!(tokenize(b"\t- x: {").is_empty());
}

fn kinds_and_texts(source: &str) -> Vec<(Kind, String)> {
    scan_all(source)
        .into_iter()
        .map(|result| {
            let token = result.unwrap();
            (token.kind(), token.as_str().to_string())
        })
        .collect()
}

#[test]
fn blank_space_only_separates_tokens() {
    let spaced = kinds_and_texts("x = 2 + abc * (3 - 1)");
    let tabbed = kinds_and_texts("x\t=\t2\t+\nabc\u{2028}*\u{0085}(3\u{000B}-\u{000C}1)");

    assert_eq!(spaced, tabbed);
    assert_eq!(spaced.len(), 11);
    assert_eq!(spaced[4], (Kind::Identifier, "abc".to_string()));
}

#[test]
fn line_feed_ends_a_comment() {
    let ended = kinds_and_texts("1 ; note\n+ 2");
    let continued = kinds_and_texts("1 ; note + 2");

    assert_eq!(ended.len(), 3);
    assert_eq!(continued.len(), 1);
}

#[test]
fn backtracking_returns_to_the_mark() {
    let mut tokens = Tokens::from(vec![
        Token::new(Lexeme::from_str("1"), Kind::Number),
        Token::new(Lexeme::from_str("+"), Kind::Plus),
        Token::new(Lexeme::from_str("2"), Kind::Number),
    ]);

    tokens.next().unwrap();
    tokens.mark();
    tokens.next().unwrap();
    tokens.next().unwrap();
    assert!(!tokens.has_next());

    tokens.backtrack();

    assert_eq!(tokens.peek_kind(), Some(Kind::Plus));
}

#[test]
fn added_value_can_be_read_back_and_removed_slot_comes_back_first() {
    let mut board = SwitchBoard::new();

    let first = board.add("a");
    let second = board.add("b");
    let third = board.add("c");

    assert_eq!(*board.get(second), Some("b"));

    board.remove(second);
    assert_eq!(*board.get(second), None);
    assert_eq!(*board.get(first), Some("a"));
    assert_eq!(*board.get(third), Some("c"));

    let again = board.reserve();
    assert_eq!(again, second);
}

#[test]
fn connection_skips_blank_lines_reads_headers_and_answers() {

    let mut phase = Phase::RequestLine;
    let mut actions = Vec::new();
    for line in ["", "\r\n", "GET / HTTP/1.1\r\n", "Host: example.com\r\n", "\r\n"] {
        let (next, action) = step(phase, Event::Line(line));
        phase = next;
        actions.push(action);
    }

    assert_eq!(
        actions,
        vec![
            Action::ReadRequestLine,
            Action::ReadRequestLine,
            Action::ReadHeaderLine,
            Action::ReadHeaderLine,
            Action::Answer,
        ]
    );
    assert_eq!(phase, Phase::Done);
}

#[test]
fn connection_closes_when_input_ends_early() {

    assert_eq!(step(Phase::RequestLine, Event::EndOfInput), (Phase::Done, Action::Close));
    assert_eq!(step(Phase::Headers, Event::EndOfInput), (Phase::Done, Action::Close));
    assert_eq!(
        step(Phase::Headers, Event::Line("\r\n")),
        (Phase::Done, Action::Answer)
    );
}

#[test]
fn location_reads_as_line_and_column() {
    assert_eq!(tortuga::Location::new(12, 3, 40).to_string(), "Line 12, Column 3");
    assert_eq!(tortuga::Location::default().to_string(), "Line 1, Column 1");
}
