//! Errors that may occur in the compilation of Tortuga input.
use crate::compiler::lexeme::Lexeme;
use crate::compiler::location::Position;
use crate::compiler::token::Token;
use vstd::prelude::*;

verus! {

/// An error that occurred parsing a numerical literal into runtime value.
#[derive(Clone, Debug, PartialEq, Eq)]
pub struct ParseNumberError {
    lexeme: String,
}

impl View for ParseNumberError {
    type V = Seq<char>;

    closed spec fn view(&self) -> Seq<char> {
        self.lexeme@
    }
}

impl ParseNumberError {
    /// The error for the number literal `lexeme`.
    pub fn from(lexeme: &str) -> (r: ParseNumberError)
        ensures
            r@ == lexeme@,
    {
        ParseNumberError { lexeme: String::from_str(lexeme) }
    }

    /// The number literal that could not be parsed.
    pub fn lexeme(&self) -> (r: &str)
        ensures
            r@ == self@,
    {
        self.lexeme.as_str()
    }
}

/// The kind of lexical error that occurred.
#[derive(Clone, Copy, Debug, PartialEq, Eq, Structural)]
pub enum ErrorKind {
    Number,
    Invalid,
}

/// An error that occurred during lexical analysis of a specific lexeme.
/// After an error is encountered, the scanner may continue to analyze the lexeme.
#[derive(Clone, Debug, PartialEq, Eq)]
pub struct LexicalError {
    lexeme: Lexeme,
    kind: ErrorKind,
}

impl View for LexicalError {
    type V = ((Position, Seq<char>), ErrorKind);

    closed spec fn view(&self) -> ((Position, Seq<char>), ErrorKind) {
        (self.lexeme@, self.kind)
    }
}

impl LexicalError {
    /// Creates a new instance of a `LexicalError` with no cascading failures.
    pub fn new(lexeme: Lexeme, kind: ErrorKind) -> (r: LexicalError)
        ensures
            r@ == (lexeme@, kind),
    {
        LexicalError { lexeme, kind }
    }

    /// The lexeme in which the error was found.
    pub fn lexeme(&self) -> (r: &Lexeme)
        ensures
            r@ == self@.0,
    {
        &self.lexeme
    }

    /// The kind of error.
    pub fn kind(&self) -> (r: ErrorKind)
        ensures
            r == self@.1,
    {
        self.kind
    }
}

/// An error that occurred while generating a syntax tree from a sequence of tokens.
/// After an error is encountered, the parser may continue to generate a tree in panic mode.
#[derive(Clone, Debug, PartialEq)]
pub enum SyntacticalError {
    /// Reached the end of file prematurely; unable to complete parsing a grammar rule.
    Incomplete,
    /// No grammar rule matches the next token.
    NoMatch(Token),
    /// The tokens came with one or more lexical errors.
    Lexical(Vec<LexicalError>),
}

impl SyntacticalError {
    /// Tests whether the parser had complete input or ran out of tokens prematurely.
    /// [`false`] if the parser ran out of tokens. Otherwise, [`true`].
    pub fn is_complete(&self) -> (r: bool)
        ensures
            r == !(self is Incomplete),
    {
        !matches!(self, SyntacticalError::Incomplete)
    }
}

/// An error that occurred while compiling to WebAssembly.
#[derive(Clone, Copy, Debug, PartialEq, Eq, Structural)]
pub enum CompilerError {
    /// A syntax error occurred.
    InvalidSyntax,
    /// Unknown error occurred.
    Unknown,
    /// An error occurred during compilation by an outside tool.
    Other,
}

} // verus!
