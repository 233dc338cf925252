//! The locations of lexemes in the source code, and the sources that lexemes are taken from.
use crate::compiler::location::{can_step, initial_position, step, Position};
use crate::compiler::unicode::{spec_utf8_len, utf8_len};
use vstd::prelude::*;
use vstd::utf8::{
    encode_utf8, is_char_boundary, is_char_boundary_iff_not_is_continuation_byte,
    is_char_boundary_start_end_of_seq, valid_utf8, valid_utf8_split,
};

verus! {

/// A source for lexemes that can be indexed via a pair of `Location`s.
pub trait LexemeSource {
    /// The bytes of the source.
    spec fn bytes(&self) -> Seq<u8>;

    /// The excerpt of this source from the offset of `start` up to the offset of `end`. Both
    /// offsets must fall on the boundaries of characters.
    fn lexeme(&self, start: &Location, end: &Location) -> (r: &Self)
        requires
            start@.2 <= end@.2,
            is_char_boundary(self.bytes(), start@.2 as int),
            is_char_boundary(self.bytes(), end@.2 as int),
        ensures
            r.bytes() == self.bytes().subrange(start@.2 as int, end@.2 as int),
    ;
}

impl LexemeSource for str {
    open spec fn bytes(&self) -> Seq<u8> {
        encode_utf8(self@)
    }

    fn lexeme(&self, start: &Location, end: &Location) -> (r: &str) {
        let ghost bytes = encode_utf8(self@);
        let ghost a = start@.2 as int;
        let ghost b = end@.2 as int;
        proof {
            vstd::utf8::encode_utf8_valid_utf8(self@);
            valid_utf8_split(bytes, a);
        }
        let (_, rest) = self.split_at(start.offset());
        let ghost tail = bytes.subrange(a, bytes.len() as int);
        assert(is_char_boundary(tail, b - a)) by {
            if b < bytes.len() {
                is_char_boundary_iff_not_is_continuation_byte(bytes, b);
                is_char_boundary_iff_not_is_continuation_byte(tail, b - a);
                assert(tail[b - a] == bytes[b]);
            } else {
                is_char_boundary_start_end_of_seq(tail);
                assert(b <= bytes.len()) by {
                    if b > bytes.len() {
                        reveal_with_fuel(is_char_boundary, 1);
                    }
                }
            }
        }
        let (excerpt, _) = rest.split_at(end.offset() - start.offset());
        assert(encode_utf8(excerpt@) =~= bytes.subrange(a, b));
        excerpt
    }
}

/// The line and column of the start of a lexeme.
#[derive(Clone, Copy, Debug, PartialEq, Eq, Structural, PartialOrd, Ord)]
pub struct Location {
    line: usize,
    column: usize,
    offset: usize,
}

impl View for Location {
    type V = Position;

    closed spec fn view(&self) -> Position {
        (self.line as nat, self.column as nat, self.offset as nat)
    }
}

impl Default for Location {
    fn default() -> (r: Self)
        ensures
            r@ == initial_position(),
    {
        Location { line: 1, column: 1, offset: 0 }
    }
}

impl Location {
    /// Creates a new instance of a `Location` with the given values.
    pub fn new(line: usize, column: usize, offset: usize) -> (r: Self)
        ensures
            r@ == (line as nat, column as nat, offset as nat),
    {
        Location { line, column, offset }
    }

    /// The offset of this `Location` into the source, in bytes.
    pub fn offset(&self) -> (r: usize)
        ensures
            r == self@.2,
    {
        self.offset
    }

    /// Move this location based on the given character `c`.
    pub fn increment(&mut self, c: char)
        requires
            can_step(old(self)@),
        ensures
            final(self)@ == step(old(self)@, c),
    {
        if c == '\n' {
            self.next_line()
        } else {
            self.add_column(c)
        }
    }

    /// Moves this `Location` to the next line, first column.
    pub fn next_line(&mut self)
        requires
            can_step(old(self)@),
        ensures
            final(self)@ == (old(self)@.0 + 1, 1nat, old(self)@.2 + 1),
    {
        self.line = self.line + 1;
        self.column = 1;
        self.offset = self.offset + utf8_len('\n');
    }

    /// Adds a single column to this `Location`.
    pub fn add_column(&mut self, c: char)
        requires
            can_step(old(self)@),
        ensures
            final(self)@ == (old(self)@.0, old(self)@.1 + 1, old(self)@.2 + spec_utf8_len(c)),
    {
        self.column = self.column + 1;
        self.offset = self.offset + utf8_len(c);
    }
}

} // verus!
