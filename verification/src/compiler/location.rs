//! Locations of lexemes in Tortuga source text.
use crate::compiler::unicode::{spec_utf8_len, utf8_len};
use crate::strings::{decimal, decimal_digits};
use vstd::prelude::*;
use vstd::utf8::{encode_scalar, encode_utf8};

verus! {

/// A position in the source as `(line, column, offset)`: lines and columns count from 1,
/// the offset counts bytes of the UTF-8 encoding from 0.
pub type Position = (nat, nat, nat);

/// The position at the very start of a source text.
pub open spec fn initial_position() -> Position {
    (1, 1, 0)
}

/// The position after moving past the character `c`: a line feed starts a new line,
/// any other character moves one column to the right.
pub open spec fn step(p: Position, c: char) -> Position {
    if c == '\n' {
        (p.0 + 1, 1, p.2 + 1)
    } else {
        (p.0, p.1 + 1, p.2 + spec_utf8_len(c))
    }
}

/// The position after moving past every character of `s`, in order, from `p`.
pub open spec fn walk(p: Position, s: Seq<char>) -> Position
    decreases s.len(),
{
    if s.len() == 0 {
        p
    } else {
        step(walk(p, s.drop_last()), s.last())
    }
}

/// Walking never moves more than one line, one column and four bytes per character.
pub proof fn lemma_walk_bounds(p: Position, s: Seq<char>)
    ensures
        walk(p, s).0 <= p.0 + s.len(),
        walk(p, s).1 <= p.1 + s.len(),
        walk(p, s).2 <= p.2 + 4 * s.len(),
        walk(p, s).2 >= p.2 + s.len(),
        walk(p, s).0 >= p.0,
    decreases s.len(),
{
    if s.len() > 0 {
        lemma_walk_bounds(p, s.drop_last());
    }
}

/// Walking a concatenation walks each part in turn.
pub proof fn lemma_walk_append(p: Position, s: Seq<char>, t: Seq<char>)
    ensures
        walk(p, s + t) == walk(walk(p, s), t),
    decreases t.len(),
{
    if t.len() == 0 {
        assert(s + t =~= s);
    } else {
        assert((s + t).drop_last() =~= s + t.drop_last());
        assert((s + t).last() == t.last());
        lemma_walk_append(p, s, t.drop_last());
    }
}

/// Encoding a concatenation encodes each part in turn.
proof fn lemma_encode_utf8_append(s: Seq<char>, t: Seq<char>)
    ensures
        encode_utf8(s + t) == encode_utf8(s) + encode_utf8(t),
    decreases s.len(),
{
    if s.len() == 0 {
        assert(s + t =~= t);
        assert(encode_utf8(s) + encode_utf8(t) =~= encode_utf8(t));
    } else {
        assert((s + t).drop_first() =~= s.drop_first() + t);
        assert((s + t)[0] == s[0]);
        lemma_encode_utf8_append(s.drop_first(), t);
        assert(encode_utf8(s + t) =~= encode_scalar(s[0] as u32) + (encode_utf8(s.drop_first())
            + encode_utf8(t)));
    }
}

/// A character takes as many bytes in UTF-8 as [`spec_utf8_len`] counts.
proof fn lemma_utf8_len_of_char(c: char)
    ensures
        encode_utf8(seq![c]).len() == spec_utf8_len(c),
{
    vstd::utf8::char_is_scalar(c);
    assert(seq![c].drop_first() =~= Seq::<char>::empty());
    assert(encode_utf8(Seq::<char>::empty()) =~= Seq::<u8>::empty());
    assert(seq![c][0] == c);
    assert(encode_utf8(seq![c]) == encode_scalar(c as u32) + encode_utf8(Seq::<char>::empty()));
    assert(encode_utf8(seq![c]) =~= encode_scalar(c as u32));
}

/// Offsets count bytes: walking past a text moves the offset by the length of the text's
/// UTF-8 encoding.
pub proof fn lemma_walk_offset(p: Position, s: Seq<char>)
    ensures
        walk(p, s).2 == p.2 + encode_utf8(s).len(),
    decreases s.len(),
{
    if s.len() > 0 {
        lemma_walk_offset(p, s.drop_last());
        lemma_encode_utf8_append(s.drop_last(), seq![s.last()]);
        assert(s.drop_last() + seq![s.last()] =~= s);
        lemma_utf8_len_of_char(s.last());
    }
}

/// The line and column of the start of a lexeme.
#[derive(Clone, Copy, Debug, PartialEq, Eq, Structural, PartialOrd, Ord)]
pub struct Location {
    offset: usize,
    line: usize,
    column: usize,
}

impl View for Location {
    type V = Position;

    closed spec fn view(&self) -> Position {
        (self.line as nat, self.column as nat, self.offset as nat)
    }
}

/// Whether another character can be walked past `p` without overflowing a `usize`.
pub open spec fn can_step(p: Position) -> bool {
    &&& p.0 < usize::MAX
    &&& p.1 < usize::MAX
    &&& p.2 + 4 <= usize::MAX
}

/// Whether `n` more characters can be walked past `p` without overflowing a `usize`.
pub open spec fn can_walk(p: Position, n: nat) -> bool {
    &&& p.0 + n < usize::MAX
    &&& p.1 + n < usize::MAX
    &&& p.2 + 4 * n + 4 <= usize::MAX
}

impl Default for Location {
    fn default() -> (r: Self)
        ensures
            r@ == initial_position(),
    {
        Location { line: 1, column: 1, offset: 0 }
    }
}

impl Location {
    /// The location whose view is `p`.
    pub closed spec fn from_position(p: Position) -> Location {
        Location { line: p.0 as usize, column: p.1 as usize, offset: p.2 as usize }
    }

    /// Creates a new instance of a `Location` with the given values.
    pub fn new(line: usize, column: usize, offset: usize) -> (r: Self)
        ensures
            r@ == (line as nat, column as nat, offset as nat),
    {
        Location { line, column, offset }
    }

    /// The offset of this `Location` into the corresponding input.
    pub fn offset(&self) -> (r: usize)
        ensures
            r == self@.2,
    {
        self.offset
    }

    /// The line of this `Location`, counting from 1.
    pub fn line(&self) -> (r: usize)
        ensures
            r == self@.0,
    {
        self.line
    }

    /// The column of this `Location`, counting from 1.
    pub fn column(&self) -> (r: usize)
        ensures
            r == self@.1,
    {
        self.column
    }

    /// Move this `Location` based on the given character `c`.
    pub fn increment(&mut self, c: char)
        requires
            can_step(old(self)@),
        ensures
            final(self)@ == step(old(self)@, c),
    {
        if c == '\n' {
            self.next_line()
        } else {
            self.add_column(c)
        }
    }

    /// Moves this `Location` to the next line, first column.
    pub fn next_line(&mut self)
        requires
            can_step(old(self)@),
        ensures
            final(self)@ == (old(self)@.0 + 1, 1nat, old(self)@.2 + 1),
    {
        self.line = self.line + 1;
        self.column = 1;
        self.offset = self.offset + utf8_len('\n');
    }

    /// Adds a single column to this `Location`.
    pub fn add_column(&mut self, c: char)
        requires
            can_step(old(self)@),
        ensures
            final(self)@ == (old(self)@.0, old(self)@.1 + 1, old(self)@.2 + spec_utf8_len(c)),
    {
        self.column = self.column + 1;
        self.offset = self.offset + utf8_len(c);
    }

    /// The same line and column with the offset reset to the start of the input.
    pub fn continuation(&self) -> (r: Location)
        ensures
            r@ == (self@.0, self@.1, 0nat),
    {
        Location { line: self.line, column: self.column, offset: 0 }
    }

    /// The location after walking past every character of `text` from this location.
    pub fn advanced_by(&self, text: &str) -> (r: Location)
        requires
            can_walk(self@, text@.len()),
        ensures
            r@ == walk(self@, text@),
    {
        let n = text.unicode_len();
        let mut location = *self;
        let mut i: usize = 0;
        while i < n
            invariant
                n == text@.len(),
                i <= n,
                can_walk(self@, text@.len()),
                location@ == walk(self@, text@.take(i as int)),
            decreases n - i,
        {
            let c = text.get_char(i);
            proof {
                lemma_walk_bounds(self@, text@.take(i as int));
                assert(text@.take(i as int + 1).drop_last() =~= text@.take(i as int));
            }
            location.increment(c);
            i = i + 1;
        }
        assert(text@.take(n as int) =~= text@);
        location
    }

    /// The location as users read it: `Line <line>, Column <column>`.
    pub fn to_string(&self) -> (r: String)
        ensures
            r@ == "Line "@ + decimal_digits(self@.0) + ", Column "@ + decimal_digits(self@.1),
    {
        let mut r = String::from_str("Line ");
        let line = decimal(self.line);
        r.append(line.as_str());
        r.append(", Column ");
        let column = decimal(self.column);
        r.append(column.as_str());
        r
    }

    /// The location just past `text` when `text` starts at the beginning of the input.
    pub fn from(text: &str) -> (r: Location)
        requires
            can_walk(initial_position(), text@.len()),
        ensures
            r@ == walk(initial_position(), text@),
    {
        let start = Location::default();
        start.advanced_by(text)
    }
}

impl<'a> core::ops::Add<&'a str> for Location {
    type Output = Location;

    fn add(self, text: &'a str) -> (r: Location) {
        self.advanced_by(text)
    }
}

impl<'a> vstd::std_specs::ops::AddSpecImpl<&'a str> for Location {
    open spec fn obeys_add_spec() -> bool {
        true
    }

    open spec fn add_req(self, text: &'a str) -> bool {
        can_walk(self@, text@.len())
    }

    open spec fn add_spec(self, text: &'a str) -> Location {
        Location::from_position(walk(self@, text@))
    }
}

impl core::ops::Sub<Location> for Location {
    type Output = isize;

    /// The signed distance in bytes between two locations.
    fn sub(self, rhs: Location) -> (r: isize) {
        (self.offset as i128 - rhs.offset as i128) as isize
    }
}

impl vstd::std_specs::ops::SubSpecImpl<Location> for Location {
    open spec fn obeys_sub_spec() -> bool {
        true
    }

    open spec fn sub_req(self, rhs: Location) -> bool {
        isize::MIN <= self@.2 - rhs@.2 <= isize::MAX
    }

    open spec fn sub_spec(self, rhs: Location) -> isize {
        (self@.2 - rhs@.2) as isize
    }
}

} // verus!
