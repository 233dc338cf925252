//! Compiler errors of the attachment-based front end.
use crate::compile::token::{InvalidToken, Kind, ValidToken};
use vstd::prelude::*;

verus! {

/// `std::num::ParseIntError`, the error of parsing an integer from text.
#[verifier::external_type_specification]
#[verifier::external_body]
pub struct ExParseIntError(std::num::ParseIntError);

/// An error that occurred during lexical analysis while validating a lexeme.
#[derive(Debug, PartialEq)]
pub enum LexicalError {
    /// Expected a digit (e.g. 0-9, a-z, A-Z) but none was found.
    ExpectedDigits,
    /// Numeric literal has more than 1 decimal point.
    DuplicateDecimal,
    /// An identifier was found ending with an underscore.
    TerminalUnderscore,
    /// Radix is too large; the maximum supported is 36.
    RadixTooLarge(u32),
    /// Fraction contains more digits than supported.
    FractionTooLong(usize),
    /// Unable to parse the integer portion of a numeric literal.
    InvalidInteger(std::num::ParseIntError),
    /// Unable to parse the fraction portion of a numeric literal.
    InvalidFraction(std::num::ParseIntError),
    /// Unable to parse the radix of a numeric literal.
    InvalidRadix(std::num::ParseIntError),
    /// Encountered an unexpected character while scanning for an identifier.
    UnexpectedCharacter,
}

/// A syntactic error that occurs when no grammar rule matches a sequence of lexical tokens.
#[derive(Debug, PartialEq)]
pub enum SyntaxError<'source> {
    /// Reached the end of the source code while parsing a grammar rule.
    IncompleteRule(Vec<Kind>),
    /// No grammar rule found to match the next lexical token.
    NoMatchingRule(ValidToken<'source>, Vec<Kind>),
    /// Encountered a token with one or more lexical errors.
    InvalidToken(InvalidToken<'source>),
}

/// An error that occurred while parsing a stream of tokens.
#[derive(Clone, Copy, Debug, PartialEq, Eq, Structural)]
pub enum ParseError {
    /// Expected a token, but reached the end of the file.
    EndOfFile,
    /// One or more syntax errors found while parsing the source code.
    MultipleErrors,
}

} // verus!
