//! Lexical [`Token`]s for the Tortuga Programming Language.
use crate::compiler::lexeme::Lexeme;
use crate::compiler::location::{Location, Position};
use vstd::prelude::*;

verus! {

/// The variants of the [`Token`]s.
#[derive(Clone, Copy, Debug, PartialEq, Eq, Structural)]
pub enum Kind {
    Number,
    Identifier,
    /// +
    Plus,
    /// -
    Minus,
    /// *
    Star,
    /// /
    Slash,
    /// %
    Percent,
    /// ^
    Caret,
    /// ~
    Tilde,
    /// =
    Equal,
    /// <>
    NotEqual,
    /// <
    LessThan,
    /// <=
    LessThanOrEqualTo,
    /// >
    GreaterThan,
    /// >=
    GreaterThanOrEqualTo,
    /// ,
    Comma,
    /// _
    Underscore,
    /// @
    At,
    /// !
    Exclamation,
    /// |
    VerticalPipe,
    LeftParenthesis,
    RightParenthesis,
    LeftBrace,
    RightBrace,
    LeftBracket,
    RightBracket,
}

/// How a kind of token is written when it is displayed.
pub open spec fn kind_symbol(kind: Kind) -> &'static str {
    match kind {
        Kind::Number => "NUMBER",
        Kind::Identifier => "IDENTIFIER",
        Kind::Plus => "+",
        Kind::Minus => "-",
        Kind::Star => "*",
        Kind::Slash => "/",
        Kind::Percent => "%",
        Kind::Caret => "^",
        Kind::Tilde => "~",
        Kind::Equal => "=",
        Kind::NotEqual => "<>",
        Kind::LessThan => "<",
        Kind::LessThanOrEqualTo => "<=",
        Kind::GreaterThan => ">",
        Kind::GreaterThanOrEqualTo => ">=",
        Kind::Comma => ",",
        Kind::Underscore => "_",
        Kind::At => "@",
        Kind::Exclamation => "!",
        Kind::VerticalPipe => "|",
        Kind::LeftParenthesis => "(",
        Kind::RightParenthesis => ")",
        Kind::LeftBrace => "{",
        Kind::RightBrace => "}",
        Kind::LeftBracket => "[",
        Kind::RightBracket => "]",
    }
}

impl Kind {
    /// How this kind of token is written when it is displayed.
    pub fn symbol(&self) -> (r: &'static str)
        ensures
            r == kind_symbol(*self),
    {
        match self {
            Kind::Number => "NUMBER",
            Kind::Identifier => "IDENTIFIER",
            Kind::Plus => "+",
            Kind::Minus => "-",
            Kind::Star => "*",
            Kind::Slash => "/",
            Kind::Percent => "%",
            Kind::Caret => "^",
            Kind::Tilde => "~",
            Kind::Equal => "=",
            Kind::NotEqual => "<>",
            Kind::LessThan => "<",
            Kind::LessThanOrEqualTo => "<=",
            Kind::GreaterThan => ">",
            Kind::GreaterThanOrEqualTo => ">=",
            Kind::Comma => ",",
            Kind::Underscore => "_",
            Kind::At => "@",
            Kind::Exclamation => "!",
            Kind::VerticalPipe => "|",
            Kind::LeftParenthesis => "(",
            Kind::RightParenthesis => ")",
            Kind::LeftBrace => "{",
            Kind::RightBrace => "}",
            Kind::LeftBracket => "[",
            Kind::RightBracket => "]",
        }
    }

    /// This kind of token as it is displayed.
    pub fn to_string(&self) -> (r: String)
        ensures
            r@ == kind_symbol(*self)@,
    {
        String::from_str(self.symbol())
    }
}

/// A lexical token is a pair of a [`Lexeme`] and a [`Kind`].
#[derive(Clone, Debug, PartialEq)]
pub struct Token {
    lexeme: Lexeme,
    kind: Kind,
}

impl View for Token {
    type V = ((Position, Seq<char>), Kind);

    closed spec fn view(&self) -> ((Position, Seq<char>), Kind) {
        (self.lexeme@, self.kind)
    }
}

impl Token {
    /// Creates a new instance of a [`Token`] with the given [`Lexeme`] and [`Kind`].
    pub fn new(lexeme: Lexeme, kind: Kind) -> (r: Token)
        ensures
            r@ == (lexeme@, kind),
    {
        Token { lexeme, kind }
    }

    /// The actual text this [`Token`] represents in the input.
    pub fn lexeme(&self) -> (r: &Lexeme)
        ensures
            r@ == self@.0,
    {
        &self.lexeme
    }

    /// This [`Token`]'s variant.
    pub fn kind(&self) -> (r: Kind)
        ensures
            r == self@.1,
    {
        self.kind
    }

    /// A [`str`] representing this [`Token`] in the input.
    pub fn as_str(&self) -> (r: &str)
        ensures
            r@ == self@.0.1,
    {
        self.lexeme.as_str()
    }

    /// A copy of this token.
    pub fn duplicate(&self) -> (r: Token)
        ensures
            r@ == self@,
    {
        Token { lexeme: self.lexeme.to_owned(), kind: self.kind }
    }
}

/// A lexical token that owns the text of its lexeme.
#[derive(Clone, Debug, PartialEq)]
pub struct OwnedToken {
    start: Location,
    lexeme: String,
    kind: Kind,
}

impl View for OwnedToken {
    type V = ((Position, Seq<char>), Kind);

    closed spec fn view(&self) -> ((Position, Seq<char>), Kind) {
        ((self.start@, self.lexeme@), self.kind)
    }
}

impl OwnedToken {
    /// Creates a new instance of a token with the given [`Lexeme`] and [`Kind`].
    pub fn new(lexeme: &Lexeme, kind: Kind) -> (r: OwnedToken)
        ensures
            r@ == (lexeme@, kind),
    {
        OwnedToken { start: *lexeme.start(), lexeme: String::from_str(lexeme.as_str()), kind }
    }

    /// The token that owns the lexeme of `token`.
    pub fn from_token(token: Token) -> (r: OwnedToken)
        ensures
            r@ == token@,
    {
        OwnedToken::new(token.lexeme(), token.kind())
    }

    /// The start [`Location`] of this token.
    pub fn start(&self) -> (r: &Location)
        ensures
            r@ == self@.0.0,
    {
        &self.start
    }

    /// This token's variant.
    pub fn kind(&self) -> (r: Kind)
        ensures
            r == self@.1,
    {
        self.kind
    }

    /// A [`str`] representing this token in the input.
    pub fn as_str(&self) -> (r: &str)
        ensures
            r@ == self@.0.1,
    {
        self.lexeme.as_str()
    }
}

} // verus!
