use tortuga::compiler::parser::tokens::Tokens;
use tortuga::compiler::parser::Parser;
use tortuga::grammar::syntax::{Expression, Primary, Program};
use tortuga::{Kind, Lexeme, SyntacticalError, Token};

#[test]
fn mod_parse_number() {
    assert!("2".parse::<Program>().is_ok());
}

#[test]
fn parse_negative_number() {
    assert!("-2#100".parse::<Program>().is_ok());
}

#[test]
fn parse_identifier() {
    assert!("xyz".parse::<Program>().is_ok());
}

#[test]
fn parse_documented_example() {
    assert!("(2 + 2#10) ^ 2 = 16".parse::<Program>().is_ok());
}

#[test]
fn parse_function_definitions() {
    assert!("_(_) = x * 2".parse::<Program>().is_ok());
    assert!("_(_ <= 1) = 1".parse::<Program>().is_ok());
    assert!("_(0 < _ < 10) = [1 2]".parse::<Program>().is_ok());
    assert!("f(1, 2)(3)".parse::<Program>().is_ok());
    assert!("_ = [1]".parse::<Program>().is_err());
}

#[test]
fn parse_comparisons() {
    match "1 < 2 <= 3".parse::<Program>() {
        Ok(Program::Comparisons(comparisons)) => assert_eq!(comparisons.tail.len(), 1),
        other => panic!("{:?}", other),
    }
}

#[test]
fn parse_expressions() {
    match "1 2 x".parse::<Program>() {
        Ok(Program::Expressions(expressions)) => assert_eq!(expressions.tail.len(), 2),
        other => panic!("{:?}", other),
    }
}

#[test]
fn number_keeps_its_text_and_sign() {
    match "-2#100".parse::<Program>() {
        Ok(Program::Expressions(expressions)) => match expressions.head {
            Expression::Arithmetic(arithmetic) => {
                let primary = &arithmetic.epsilon.lhs.head.head.head.head;
                match primary {
                    Primary::Number(number) => {
                        assert!(number.negative);
                        assert_eq!(number.number.as_str(), "2#100");
                    }
                    other => panic!("{:?}", other),
                }
            }
            other => panic!("{:?}", other),
        },
        other => panic!("{:?}", other),
    }
}

#[test]
fn incomplete_input() {
    assert_eq!("(1 + 2".parse::<Program>(), Err(SyntacticalError::Incomplete));
    assert_eq!("1 +".parse::<Program>(), Err(SyntacticalError::Incomplete));
}

#[test]
fn unexpected_token() {
    match ")".parse::<Program>() {
        Err(SyntacticalError::NoMatch(token)) => assert_eq!(token.kind(), Kind::RightParenthesis),
        other => panic!("{:?}", other),
    }
}

#[test]
fn lexical_errors_are_reported() {
    assert!(matches!(
        "1 + $".parse::<Program>(),
        Err(SyntacticalError::Lexical(errors)) if errors.len() == 1
    ));
}

#[test]
fn parser_of_tokens() {
    let tokens = Tokens::from(vec![
        Token::new(Lexeme::from_str("x"), Kind::Identifier),
        Token::new(Lexeme::from_str("^"), Kind::Caret),
        Token::new(Lexeme::from_str("2"), Kind::Number),
    ]);

    assert!(Parser::new(tokens).parse().is_ok());
}

#[test]
fn parser_of_named_function() {
    let tokens = Tokens::from(vec![
        Token::new(Lexeme::from_str("@"), Kind::At),
        Token::new(Lexeme::from_str("f"), Kind::Identifier),
        Token::new(Lexeme::from_str("="), Kind::Equal),
        Token::new(Lexeme::from_str("1"), Kind::Number),
    ]);

    assert!(Parser::new(tokens).parse().is_ok());
}
