//! Tortuga `Input` is interpreted as a sequence of Unicode code points encoded in UTF-8.
use crate::compiler::lexeme::Lexeme;
use crate::compiler::location::{
    can_walk, initial_position, lemma_walk_bounds, walk, Location, Position,
};
use crate::compiler::text::chars_of;
use crate::compiler::unicode::{pattern_white_space, spec_is_pattern_white_space};
use vstd::prelude::*;

verus! {

/// Iterates input with 1 Unicode code point of lookahead.
///
/// The input keeps two locations: the start of the lexeme being scanned and the end of what
/// has been consumed so far.
pub struct Input<'a> {
    source: &'a str,
    characters: Vec<char>,
    start_index: usize,
    index: usize,
    start: Location,
    end: Location,
}

/// The location of the character at `index` of `chars`.
pub open spec fn location_at(chars: Seq<char>, index: int) -> Position {
    walk(initial_position(), chars.take(index))
}

impl<'a> Input<'a> {
    /// The characters of the input.
    pub closed spec fn chars(&self) -> Seq<char> {
        self.characters@
    }

    /// How many characters precede the lexeme being scanned.
    pub closed spec fn start_index(&self) -> nat {
        self.start_index as nat
    }

    /// How many characters have been consumed.
    pub closed spec fn index(&self) -> nat {
        self.index as nat
    }

    /// The input is consistent: its locations are those of its indices.
    pub closed spec fn wf(&self) -> bool {
        &&& self.characters@ == self.source@
        &&& self.start_index <= self.index <= self.characters.len()
        &&& self.start@ == location_at(self.characters@, self.start_index as int)
        &&& self.end@ == location_at(self.characters@, self.index as int)
        &&& can_walk(initial_position(), self.characters.len() as nat)
    }

    /// What a consistent input knows of its indices.
    pub proof fn lemma_wf(&self)
        requires
            self.wf(),
        ensures
            self.start_index() <= self.index() <= self.chars().len(),
            can_walk(initial_position(), self.chars().len()),
    {
    }

    /// The next character, if any is left.
    pub open spec fn spec_peek(&self) -> Option<char> {
        if self.index() < self.chars().len() {
            Some(self.chars()[self.index() as int])
        } else {
            None
        }
    }

    /// The lexeme from the start index up to the current index.
    pub open spec fn spec_lexeme(&self) -> (Position, Seq<char>) {
        (
            location_at(self.chars(), self.start_index() as int),
            self.chars().subrange(self.start_index() as int, self.index() as int),
        )
    }

    /// An input positioned at the start of `source`.
    pub fn from(source: &'a str) -> (r: Input<'a>)
        requires
            can_walk(initial_position(), source@.len()),
        ensures
            r.wf(),
            r.chars() == source@,
            r.start_index() == 0,
            r.index() == 0,
    {
        let characters = chars_of(source);
        assert(characters@.take(0) =~= Seq::<char>::empty());
        Input {
            source,
            characters,
            start_index: 0,
            index: 0,
            start: Location::default(),
            end: Location::default(),
        }
    }

    /// Consumes the next character.
    fn consume(&mut self)
        requires
            old(self).wf(),
            old(self).index() < old(self).chars().len(),
        ensures
            final(self).wf(),
            final(self).chars() == old(self).chars(),
            final(self).start_index() == old(self).start_index(),
            final(self).index() == old(self).index() + 1,
    {
        let c = self.characters[self.index];
        proof {
            let s = self.characters@;
            let i = self.index as int;
            lemma_walk_bounds(initial_position(), s.take(i));
            assert(s.take(i + 1).drop_last() =~= s.take(i));
            assert(s.take(i + 1).last() == c);
        }
        self.end.increment(c);
        self.index = self.index + 1;
    }

    /// Lookahead by 1 Unicode code point without advancing the `Location` of the current `Lexeme`.
    pub fn peek(&self) -> (r: Option<char>)
        requires
            self.wf(),
        ensures
            r == self.spec_peek(),
    {
        if self.index < self.characters.len() {
            Some(self.characters[self.index])
        } else {
            None
        }
    }

    /// Consumes and returns the next character, if any is left.
    pub fn next(&mut self) -> (r: Option<char>)
        requires
            old(self).wf(),
        ensures
            final(self).wf(),
            final(self).chars() == old(self).chars(),
            final(self).start_index() == old(self).start_index(),
            r == old(self).spec_peek(),
            final(self).index() == old(self).index() + if r is Some {
                1nat
            } else {
                0nat
            },
    {
        let c = self.peek();
        if c.is_some() {
            self.consume();
        }
        c
    }

    /// If the next character is equal to the `expected` value, advance the `Location` of the current `Lexeme`.
    /// Otherwise, the current `Location` is unchanged.
    pub fn next_if_eq(&mut self, expected: char) -> (r: Option<char>)
        requires
            old(self).wf(),
        ensures
            final(self).wf(),
            final(self).chars() == old(self).chars(),
            final(self).start_index() == old(self).start_index(),
            r == (if old(self).spec_peek() == Some(expected) {
                Some(expected)
            } else {
                None
            }),
            final(self).index() == old(self).index() + if r is Some {
                1nat
            } else {
                0nat
            },
    {
        match self.peek() {
            Some(c) => {
                if c == expected {
                    self.consume();
                    Some(c)
                } else {
                    None
                }
            },
            None => None,
        }
    }

    /// Unless the next character is equal to the `avoid` value, advance the `Location` of the current `Lexeme`.
    /// Otherwise, the current `Location` is unchanged.
    pub fn next_unless_eq(&mut self, avoid: char) -> (r: Option<char>)
        requires
            old(self).wf(),
        ensures
            final(self).wf(),
            final(self).chars() == old(self).chars(),
            final(self).start_index() == old(self).start_index(),
            r == (match old(self).spec_peek() {
                Some(c) => if c != avoid {
                    Some(c)
                } else {
                    None
                },
                None => None,
            }),
            final(self).index() == old(self).index() + if r is Some {
                1nat
            } else {
                0nat
            },
    {
        match self.peek() {
            Some(c) => {
                if c != avoid {
                    self.consume();
                    Some(c)
                } else {
                    None
                }
            },
            None => None,
        }
    }

    /// Returns the next character only if the next one matches the given predicate.
    pub fn next_if<F: Fn(char) -> bool>(&mut self, predicate: F) -> (r: Option<char>)
        requires
            old(self).wf(),
            forall|c: char| predicate.requires((c,)),
        ensures
            final(self).wf(),
            final(self).chars() == old(self).chars(),
            final(self).start_index() == old(self).start_index(),
            match r {
                Some(c) => old(self).spec_peek() == Some(c) && predicate.ensures((c,), true)
                    && final(self).index() == old(self).index() + 1,
                None => final(self).index() == old(self).index() && (old(
                    self,
                ).spec_peek() matches Some(c) ==> predicate.ensures((c,), false)),
            },
    {
        match self.peek() {
            Some(c) => {
                if predicate(c) {
                    self.consume();
                    Some(c)
                } else {
                    None
                }
            },
            None => None,
        }
    }

    /// Skips any blank space characters.
    /// Returns true if any characters were skipped, false otherwise.
    ///
    /// Tortuga is a "free-form" language,
    /// meaning that all forms of whitespace serve only to separate tokens in the grammar,
    /// and have no semantic significance.
    ///
    /// See <https://util.unicode.org/UnicodeJsps/list-unicodeset.jsp?a=%5B%3APattern_White_Space%3A%5D&abb=on&g=&i=>
    pub fn skip_blank_space(&mut self) -> (r: bool)
        requires
            old(self).wf(),
        ensures
            final(self).wf(),
            final(self).chars() == old(self).chars(),
            final(self).index() == blank_end(old(self).chars(), old(self).index() as int),
            final(self).start_index() == final(self).index(),
            r == (final(self).index() > old(self).index()),
    {
        let first = self.index;
        while self.index < self.characters.len() && pattern_white_space(
            self.characters[self.index],
        )
            invariant
                self.wf(),
                self.chars() == old(self).chars(),
                self.start_index() == old(self).start_index(),
                old(self).index() <= self.index() <= self.chars().len(),
                first == old(self).index(),
                blank_end(self.chars(), old(self).index() as int) == blank_end(
                    self.chars(),
                    self.index() as int,
                ),
            decreases self.characters.len() - self.index,
        {
            self.consume();
        }
        self.start_index = self.index;
        self.start = self.end;
        self.index > first
    }

    /// Advances the `Input` to start a new `Lexeme` and returns the scanned `Lexeme`.
    pub fn advance(&mut self) -> (r: Lexeme)
        requires
            old(self).wf(),
        ensures
            final(self).wf(),
            final(self).chars() == old(self).chars(),
            final(self).index() == old(self).index(),
            final(self).start_index() == old(self).index(),
            r@ == old(self).spec_lexeme(),
    {
        let lexeme = self.peek_lexeme();
        self.start_index = self.index;
        self.start = self.end;
        lexeme
    }

    /// Gets the lexeme starting at this `Input`'s start `Location` (inclusive) until this `Input`'s end `Location` (exclusive).
    pub fn peek_lexeme(&self) -> (r: Lexeme)
        requires
            self.wf(),
        ensures
            r@ == self.spec_lexeme(),
    {
        Lexeme::new(self.start, self.source.substring_char(self.start_index, self.index))
    }
}

/// The index of the first character at or after `i` that is not blank space.
pub open spec fn blank_end(s: Seq<char>, i: int) -> int
    decreases s.len() - i,
{
    if 0 <= i < s.len() && spec_is_pattern_white_space(s[i]) {
        blank_end(s, i + 1)
    } else {
        i
    }
}

} // verus!
