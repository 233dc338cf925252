//! The lexical elements of the syntax tree: numbers and identifiers, by their text.
use vstd::prelude::*;

verus! {

/// The text of a number literal.
#[derive(Clone, Debug, PartialEq, Eq)]
pub struct Number {
    text: String,
}

impl View for Number {
    type V = Seq<char>;

    closed spec fn view(&self) -> Seq<char> {
        self.text@
    }
}

impl Number {
    /// The number written as `text`.
    pub fn new(text: &str) -> (r: Number)
        ensures
            r@ == text@,
    {
        Number { text: text.to_owned() }
    }

    pub fn as_str(&self) -> (r: &str)
        ensures
            r@ == self@,
    {
        self.text.as_str()
    }
}

/// The text of an identifier.
#[derive(Clone, Debug, PartialEq, Eq)]
pub struct Identifier {
    text: String,
}

impl View for Identifier {
    type V = Seq<char>;

    closed spec fn view(&self) -> Seq<char> {
        self.text@
    }
}

impl Identifier {
    /// The identifier written as `text`.
    pub fn new(text: &str) -> (r: Identifier)
        ensures
            r@ == text@,
    {
        Identifier { text: text.to_owned() }
    }

    pub fn as_str(&self) -> (r: &str)
        ensures
            r@ == self@,
    {
        self.text.as_str()
    }
}

} // verus!
