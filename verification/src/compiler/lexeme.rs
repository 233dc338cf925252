//! A lexeme is an excerpt of text from the source code to be compiled,
//! together with the [`Location`] where the excerpt starts.
use crate::compiler::location::{initial_position, Location, Position};
use vstd::prelude::*;

verus! {


/// An excerpt of the input and the [`Location`] of the start of the excerpt.
#[derive(Clone, Debug, PartialEq, Eq, PartialOrd, Ord)]
pub struct Lexeme {
    start: Location,
    lexeme: String,
}

impl View for Lexeme {
    type V = (Position, Seq<char>);

    closed spec fn view(&self) -> (Position, Seq<char>) {
        (self.start@, self.lexeme@)
    }
}

impl Lexeme {
    /// Creates a new instance of a `Lexeme` with the given start `Location` and text.
    pub fn new(start: Location, lexeme: &str) -> (r: Lexeme)
        ensures
            r@ == (start@, lexeme@),
    {
        Lexeme { start, lexeme: String::from_str(lexeme) }
    }

    /// A `Lexeme` for the given text that starts at the beginning of the input.
    pub fn from_str(lexeme: &str) -> (r: Lexeme)
        ensures
            r@ == (initial_position(), lexeme@),
    {
        Lexeme { start: Location::default(), lexeme: String::from_str(lexeme) }
    }

    /// A `Lexeme` that owns the given text and starts at the beginning of the input.
    pub fn from_string(lexeme: String) -> (r: Lexeme)
        ensures
            r@ == (initial_position(), lexeme@),
    {
        Lexeme { start: Location::default(), lexeme }
    }

    /// Creates an owned clone of this [`Lexeme`].
    pub fn to_owned(&self) -> (r: Lexeme)
        ensures
            r@ == self@,
    {
        Lexeme { start: self.start, lexeme: self.lexeme.clone() }
    }

    /// The start [`Location`] of this [`Lexeme`].
    pub fn start(&self) -> (r: &Location)
        ensures
            r@ == self@.0,
    {
        &self.start
    }

    /// The length in bytes of this [`Lexeme`].
    pub fn len(&self) -> (r: usize)
        ensures
            r == vstd::utf8::encode_utf8(self@.1).len(),
    {
        self.lexeme.as_str().as_bytes().len()
    }

    /// Tests whether this [`Lexeme`] has a length of 0.
    pub fn is_empty(&self) -> (r: bool)
        ensures
            r == (self@.1.len() == 0),
    {
        self.lexeme.as_str().is_empty()
    }

    /// A [`str`] representing this [`Lexeme`] in the input.
    pub fn as_str(&self) -> (r: &str)
        ensures
            r@ == self@.1,
    {
        self.lexeme.as_str()
    }
}

} // verus!
