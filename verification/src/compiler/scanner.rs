//! Performs lexical analysis on Tortuga input and produces a sequence of `Token`s.
use crate::compiler::errors::{ErrorKind, LexicalError};
use crate::compiler::input::{blank_end, location_at, Input};
use crate::compiler::location::{can_walk, initial_position};
use crate::compiler::number::{
    is_digit, is_number, is_valid_radix_text, number_syntax, spec_digit_value, valid_radix_text,
    DECIMAL, MAX_RADIX,
};
use crate::compiler::text::chars_of;
use crate::compiler::token::{Kind, Token};
use crate::compiler::unicode::{
    is_ascii_digit, is_ascii_punctuation, pattern_white_space, spec_is_ascii_digit,
    spec_is_ascii_punctuation, spec_is_pattern_white_space,
};
use crate::compiler::xid::{is_xid_continue, is_xid_start, unicode_xid_continue, unicode_xid_start};
use vstd::prelude::*;

verus! {

/// The result of scanning one token: a token of a kind, or a lexical error of a kind.
pub type Scanned = Result<Kind, ErrorKind>;

/// The first index at or after `i` whose character does not satisfy `p`.
pub open spec fn run_end(s: Seq<char>, i: int, p: spec_fn(char) -> bool) -> int
    decreases s.len() - i,
{
    if 0 <= i < s.len() && p(s[i]) {
        run_end(s, i + 1, p)
    } else {
        i
    }
}

pub proof fn lemma_run_end(s: Seq<char>, i: int, k: int, p: spec_fn(char) -> bool)
    requires
        0 <= i <= k <= s.len(),
        forall|j: int| i <= j < k ==> p(s[j]),
        k < s.len() ==> !p(s[k]),
    ensures
        run_end(s, i, p) == k,
    decreases k - i,
{
    if i < k {
        lemma_run_end(s, i + 1, k, p);
    }
}

pub proof fn lemma_run_end_bounds(s: Seq<char>, i: int, p: spec_fn(char) -> bool)
    requires
        0 <= i <= s.len(),
    ensures
        i <= run_end(s, i, p) <= s.len(),
    decreases s.len() - i,
{
    if i < s.len() && p(s[i]) {
        lemma_run_end_bounds(s, i + 1, p);
    }
}

/// The end of a comment that continues at `i`: the next line feed, or the end of the input.
pub open spec fn comment_end(s: Seq<char>, i: int) -> int {
    run_end(s, i, |c: char| c != '\n')
}

/// The index after skipping blank space and comments (`;` up to the end of the line) from `i`.
pub open spec fn trivia_end(s: Seq<char>, i: int) -> int
    decreases s.len() - i,
{
    if 0 <= i < s.len() && spec_is_pattern_white_space(s[i]) {
        trivia_end(s, i + 1)
    } else if 0 <= i < s.len() && s[i] == ';' {
        proof {
            lemma_run_end_bounds(s, i + 1, |c: char| c != '\n');
        }
        trivia_end(s, comment_end(s, i + 1))
    } else {
        i
    }
}

pub proof fn lemma_trivia_end_blank(s: Seq<char>, i: int)
    requires
        0 <= i <= s.len(),
    ensures
        trivia_end(s, blank_end(s, i)) == trivia_end(s, i),
        i <= blank_end(s, i) <= s.len(),
        blank_end(s, i) < s.len() ==> !spec_is_pattern_white_space(s[blank_end(s, i)]),
    decreases s.len() - i,
{
    if i < s.len() && spec_is_pattern_white_space(s[i]) {
        lemma_trivia_end_blank(s, i + 1);
    }
}

pub proof fn lemma_trivia_end_bounds(s: Seq<char>, i: int)
    requires
        0 <= i <= s.len(),
    ensures
        i <= trivia_end(s, i) <= s.len(),
        trivia_end(s, i) < s.len() ==> !spec_is_pattern_white_space(s[trivia_end(s, i)]) && s[trivia_end(s, i)] != ';',
    decreases s.len() - i,
{
    if i < s.len() && spec_is_pattern_white_space(s[i]) {
        lemma_trivia_end_bounds(s, i + 1);
    } else if i < s.len() && s[i] == ';' {
        lemma_run_end_bounds(s, i + 1, |c: char| c != '\n');
        lemma_trivia_end_bounds(s, comment_end(s, i + 1));
    }
}

/// Blank space is skipped before a token, and only blank space and comments are. Blank
/// space is Unicode's `Pattern_White_Space`: tab, line feed, vertical tab, form feed, carriage
/// return, space, next line, the left-to-right and right-to-left marks, and the line and
/// paragraph separators. From a blank character, scanning finds the tokens that it finds
/// from the next character, so a CRLF line break scans as its line feed alone; from a
/// character that is neither blank nor the `;` of a comment, nothing is skipped.
pub proof fn lemma_blank_space_is_skipped(s: Seq<char>, i: int)
    requires
        0 <= i < s.len(),
    ensures
        (s[i] == '\t' || s[i] == '\n' || s[i] == '\u{000B}' || s[i] == '\u{000C}' || s[i] == '\r'
            || s[i] == ' ' || s[i] == '\u{0085}' || s[i] == '\u{200E}' || s[i] == '\u{200F}' || s[i]
            == '\u{2028}' || s[i] == '\u{2029}') ==> trivia_end(s, i) == trivia_end(s, i + 1)
            && next_token(s, i) == next_token(s, i + 1) && scan_outcomes(s, i) == scan_outcomes(
            s,
            i + 1,
        ),
        !(s[i] == '\t' || s[i] == '\n' || s[i] == '\u{000B}' || s[i] == '\u{000C}' || s[i] == '\r'
            || s[i] == ' ' || s[i] == '\u{0085}' || s[i] == '\u{200E}' || s[i] == '\u{200F}' || s[i]
            == '\u{2028}' || s[i] == '\u{2029}') && s[i] != ';' ==> trivia_end(s, i) == i,
        i + 1 < s.len() && s[i] == '\r' && s[i + 1] == '\n' ==> scan_outcomes(s, i) == scan_outcomes(
            s,
            i + 2,
        ),
{
    if spec_is_pattern_white_space(s[i]) {
        lemma_trivia_end_bounds(s, i + 1);
        let t = trivia_end(s, i + 1);
        if t < s.len() {
            lemma_scan_at_advances(s, t);
        }
    }
    if i + 1 < s.len() && s[i] == '\r' && s[i + 1] == '\n' {
        lemma_trivia_end_bounds(s, i + 2);
        let t = trivia_end(s, i + 2);
        if t < s.len() {
            lemma_scan_at_advances(s, t);
        }
    }
}

/// The kind of a token made of the single character `c`, if there is one.
pub open spec fn single_kind(c: char) -> Option<Kind> {
    if c == '+' {
        Some(Kind::Plus)
    } else if c == '-' {
        Some(Kind::Minus)
    } else if c == '*' {
        Some(Kind::Star)
    } else if c == '/' {
        Some(Kind::Slash)
    } else if c == '^' {
        Some(Kind::Caret)
    } else if c == '=' {
        Some(Kind::Equal)
    } else if c == '~' {
        Some(Kind::Tilde)
    } else if c == '%' {
        Some(Kind::Percent)
    } else if c == '_' {
        Some(Kind::Underscore)
    } else if c == '(' {
        Some(Kind::LeftParenthesis)
    } else if c == ')' {
        Some(Kind::RightParenthesis)
    } else if c == '[' {
        Some(Kind::LeftBracket)
    } else if c == ']' {
        Some(Kind::RightBracket)
    } else if c == '{' {
        Some(Kind::LeftBrace)
    } else if c == '}' {
        Some(Kind::RightBrace)
    } else if c == ',' {
        Some(Kind::Comma)
    } else {
        None
    }
}

/// A digit of the given radix.
pub open spec fn digit_of(radix: nat) -> spec_fn(char) -> bool {
    |c: char| spec_digit_value(c) < radix
}

/// A character that continues an invalid lexeme: neither punctuation, a digit, the start of
/// an identifier nor blank space.
pub open spec fn invalid_continue(c: char) -> bool {
    !spec_is_ascii_punctuation(c) && !spec_is_ascii_digit(c) && !unicode_xid_start(c)
        && !spec_is_pattern_white_space(c)
}

/// Scanning a number that starts with the digit at `i`: the end of its lexeme and its outcome.
///
/// The lexeme is the decimal digits, then optionally `#` and the digits of radix 36, then
/// optionally `.` and the digits of the radix (36 after a `#`, else 10). It is a number token
/// exactly when it has some digits after the radix and either has the lexical structure of a
/// number or is a valid radix, `#`, `.` and digits (a fraction after a radix, which like a
/// number that starts with `.` may end in zeros).
pub open spec fn scan_number_at(s: Seq<char>, i: int) -> (int, Scanned) {
    let a = run_end(s, i + 1, digit_of(10));
    let has_radix = a < s.len() && s[a] == '#';
    let b = if has_radix {
        run_end(s, a + 1, digit_of(36))
    } else {
        a
    };
    let integer_digits = if has_radix {
        b - (a + 1)
    } else {
        a - i
    };
    let radix: nat = if has_radix {
        36
    } else {
        10
    };
    let has_point = b < s.len() && s[b] == '.';
    let e = if has_point {
        run_end(s, b + 1, digit_of(radix))
    } else {
        b
    };
    let fraction_digits = if has_point {
        e - (b + 1)
    } else {
        0
    };
    if integer_digits == 0 && fraction_digits == 0 {
        (e, Err(ErrorKind::Number))
    } else if number_syntax(s.subrange(i, e)) is Some || (has_radix && integer_digits == 0
        && valid_radix_text(s.subrange(i, a))) {
        (e, Ok(Kind::Number))
    } else {
        (e, Err(ErrorKind::Number))
    }
}

/// Scanning the token that starts at `i`: the end of its lexeme and its outcome.
pub open spec fn scan_at(s: Seq<char>, i: int) -> (int, Scanned) {
    let c = s[i];
    let has = |j: int, d: char| j < s.len() && s[j] == d;
    if single_kind(c) is Some {
        (i + 1, Ok(single_kind(c)->0))
    } else if c == '<' {
        if has(i + 1, '=') {
            (i + 2, Ok(Kind::LessThanOrEqualTo))
        } else if has(i + 1, '>') {
            (i + 2, Ok(Kind::NotEqual))
        } else {
            (i + 1, Ok(Kind::LessThan))
        }
    } else if c == '>' {
        if has(i + 1, '=') {
            (i + 2, Ok(Kind::GreaterThanOrEqualTo))
        } else {
            (i + 1, Ok(Kind::GreaterThan))
        }
    } else if c == '.' {
        let e = run_end(s, i + 1, digit_of(10));
        if e == i + 1 {
            (e, Err(ErrorKind::Number))
        } else {
            (e, Ok(Kind::Number))
        }
    } else if spec_is_ascii_digit(c) {
        scan_number_at(s, i)
    } else if unicode_xid_start(c) {
        (run_end(s, i + 1, |d: char| unicode_xid_continue(d)), Ok(Kind::Identifier))
    } else {
        (run_end(s, i + 1, |d: char| invalid_continue(d)), Err(ErrorKind::Invalid))
    }
}

/// The next token scanned from index `i` of `s`: where its lexeme starts and ends and what it
/// is, or [`None`] when only blank space and comments are left.
pub open spec fn next_token(s: Seq<char>, i: int) -> Option<(int, int, Scanned)> {
    let t = trivia_end(s, i);
    if t < s.len() {
        Some((t, scan_at(s, t).0, scan_at(s, t).1))
    } else {
        None
    }
}

/// A lexical analyzer with 1 character of lookahead.
pub struct Scanner<'a> {
    input: Input<'a>,
}

impl<'a> Scanner<'a> {
    /// The characters being scanned.
    pub closed spec fn chars(&self) -> Seq<char> {
        self.input.chars()
    }

    /// How many characters have been scanned.
    pub closed spec fn position(&self) -> nat {
        self.input.index()
    }

    pub closed spec fn wf(&self) -> bool {
        self.input.wf()
    }

    /// A well-formed scanner has not read past the end of its characters.
    pub proof fn lemma_position(&self)
        requires
            self.wf(),
        ensures
            self.position() <= self.chars().len(),
    {
        self.input.lemma_wf();
    }

    /// A scanner positioned at the start of `source`.
    pub fn from(source: &'a str) -> (r: Scanner<'a>)
        requires
            can_walk(initial_position(), source@.len()),
        ensures
            r.wf(),
            r.chars() == source@,
            r.position() == 0,
    {
        Scanner { input: Input::from(source) }
    }

    /// Skips blank space and comments; afterwards the lexeme being scanned starts here.
    fn skip_trivia(&mut self)
        requires
            old(self).wf(),
        ensures
            final(self).wf(),
            final(self).chars() == old(self).chars(),
            final(self).input.index() == trivia_end(old(self).chars(), old(self).input.index() as int),
            final(self).input.start_index() == final(self).input.index(),
    {
        let ghost s = self.input.chars();
        let ghost i0 = self.input.index() as int;
        proof {
            self.input.lemma_wf();
        }
        loop
            invariant
                self.wf(),
                self.chars() == s,
                s == old(self).chars(),
                i0 == old(self).input.index(),
                self.input.index() <= s.len(),
                trivia_end(s, self.input.index() as int) == trivia_end(s, i0),
            decreases s.len() - self.input.index(),
        {
            proof {
                self.input.lemma_wf();
            }
            let ghost before = self.input.index() as int;
            self.input.skip_blank_space();
            proof {
                lemma_trivia_end_blank(s, before);
            }
            if self.input.peek() == Some(';') {
                let ghost j = self.input.index() as int;
                self.input.next();
                self.skip_comment();
                proof {
                    lemma_run_end_bounds(s, j + 1, |c: char| c != '\n');
                }
            } else {
                proof {
                    let j = self.input.index() as int;
                    if j < s.len() {
                        assert(!spec_is_pattern_white_space(s[j])) by {
                            lemma_trivia_end_blank(s, before);
                        }
                    }
                }
                assert(self.chars() == s);
                return;
            }
        }
    }

    /// Skips the rest of a comment, up to (not including) the end of the line.
    fn skip_comment(&mut self)
        requires
            old(self).wf(),
        ensures
            final(self).wf(),
            final(self).chars() == old(self).chars(),
            final(self).input.start_index() == old(self).input.start_index(),
            final(self).input.index() == comment_end(old(self).chars(), old(self).input.index() as int),
    {
        let ghost s = self.input.chars();
        let ghost i0 = self.input.index() as int;
        proof {
            self.input.lemma_wf();
        }
        while self.input.next_unless_eq('\n').is_some()
            invariant
                self.wf(),
                self.chars() == s,
                self.input.start_index() == old(self).input.start_index(),
                0 <= i0 <= self.input.index() <= s.len(),
                forall|j: int| i0 <= j < self.input.index() ==> s[j] != '\n',
            decreases s.len() - self.input.index(),
        {
            proof {
                self.input.lemma_wf();
            }
        }
        proof {
            lemma_run_end(s, i0, self.input.index() as int, |c: char| c != '\n');
        }
    }

    /// Whether the next character is a digit of `radix`.
    fn peek_satisfies_digit(&self, radix: u32) -> (r: bool)
        requires
            self.wf(),
        ensures
            r == (self.input.spec_peek() matches Some(c) && spec_digit_value(c) < radix),
    {
        match self.input.peek() {
            Some(c) => is_digit(c, radix),
            None => false,
        }
    }

    /// Whether the next character continues an identifier.
    fn peek_satisfies_xid_continue(&self) -> (r: bool)
        requires
            self.wf(),
        ensures
            r == (self.input.spec_peek() matches Some(c) && unicode_xid_continue(c)),
    {
        match self.input.peek() {
            Some(c) => is_xid_continue(c),
            None => false,
        }
    }

    /// Whether the next character continues an invalid lexeme.
    fn peek_satisfies_invalid_continue(&self) -> (r: bool)
        requires
            self.wf(),
        ensures
            r == (self.input.spec_peek() matches Some(c) && invalid_continue(c)),
    {
        match self.input.peek() {
            Some(c) => !is_ascii_punctuation(c) && !is_ascii_digit(c) && !is_xid_start(c)
                && !pattern_white_space(c),
            None => false,
        }
    }

    /// Consumes the digits of `radix` that follow and returns how many there were.
    fn scan_digits(&mut self, radix: u32) -> (n: usize)
        requires
            old(self).wf(),
            2 <= radix <= 36,
        ensures
            final(self).wf(),
            final(self).chars() == old(self).chars(),
            final(self).input.start_index() == old(self).input.start_index(),
            final(self).input.index() == run_end(old(self).chars(), old(self).input.index() as int, digit_of(radix as nat)),
            n == final(self).input.index() - old(self).input.index(),
    {
        let ghost s = self.input.chars();
        let ghost i0 = self.input.index() as int;
        proof {
            self.input.lemma_wf();
        }
        let mut digits: usize = 0;
        while self.peek_satisfies_digit(radix)
            invariant
                self.wf(),
                2 <= radix <= 36,
                self.chars() == s,
                self.input.start_index() == old(self).input.start_index(),
                0 <= i0 <= self.input.index() <= s.len(),
                digits == self.input.index() - i0,
                forall|j: int| i0 <= j < self.input.index() ==> (digit_of(radix as nat))(s[j]),
            decreases s.len() - self.input.index(),
        {
            proof {
                self.input.lemma_wf();
            }
            assert(self.input.index() < s.len());
            self.input.next();
            assert(digits < s.len());
            digits = digits + 1;
        }
        proof {
            lemma_run_end(s, i0, self.input.index() as int, digit_of(radix as nat));
        }
        digits
    }

    /// Consumes the characters that continue an identifier.
    fn scan_identifier(&mut self)
        requires
            old(self).wf(),
        ensures
            final(self).wf(),
            final(self).chars() == old(self).chars(),
            final(self).input.start_index() == old(self).input.start_index(),
            final(self).input.index() == run_end(old(self).chars(), old(self).input.index() as int, |d: char| unicode_xid_continue(d)),
    {
        let ghost s = self.input.chars();
        let ghost i0 = self.input.index() as int;
        proof {
            self.input.lemma_wf();
        }
        while self.peek_satisfies_xid_continue()
            invariant
                self.wf(),
                self.chars() == s,
                self.input.start_index() == old(self).input.start_index(),
                0 <= i0 <= self.input.index() <= s.len(),
                forall|j: int| i0 <= j < self.input.index() ==> unicode_xid_continue(s[j]),
            decreases s.len() - self.input.index(),
        {
            proof {
                self.input.lemma_wf();
            }
            self.input.next();
        }
        proof {
            lemma_run_end(s, i0, self.input.index() as int, |d: char| unicode_xid_continue(d));
        }
    }

    /// Consumes the characters that continue an invalid lexeme.
    fn scan_invalid(&mut self)
        requires
            old(self).wf(),
        ensures
            final(self).wf(),
            final(self).chars() == old(self).chars(),
            final(self).input.start_index() == old(self).input.start_index(),
            final(self).input.index() == run_end(old(self).chars(), old(self).input.index() as int, |d: char| invalid_continue(d)),
    {
        let ghost s = self.input.chars();
        let ghost i0 = self.input.index() as int;
        proof {
            self.input.lemma_wf();
        }
        while self.peek_satisfies_invalid_continue()
            invariant
                self.wf(),
                self.chars() == s,
                self.input.start_index() == old(self).input.start_index(),
                0 <= i0 <= self.input.index() <= s.len(),
                forall|j: int| i0 <= j < self.input.index() ==> invalid_continue(s[j]),
            decreases s.len() - self.input.index(),
        {
            proof {
                self.input.lemma_wf();
            }
            self.input.next();
        }
        proof {
            lemma_run_end(s, i0, self.input.index() as int, |d: char| invalid_continue(d));
        }
    }

    /// Finishes the lexeme being scanned as a token or an error of the given kind.
    fn finish(&mut self, outcome: Scanned) -> (r: Result<Token, LexicalError>)
        requires
            old(self).wf(),
        ensures
            final(self).wf(),
            final(self).chars() == old(self).chars(),
            final(self).input.index() == old(self).input.index(),
            final(self).input.start_index() == old(self).input.index(),
            scanned_as(r, old(self).chars(), old(self).input.start_index() as int, old(self).input.index() as int, outcome),
    {
        let lexeme = self.input.advance();
        match outcome {
            Ok(kind) => Ok(Token::new(lexeme, kind)),
            Err(kind) => Err(LexicalError::new(lexeme, kind)),
        }
    }

    /// Scans a token that starts with the `<` just consumed: `<=`, `<>` or `<`.
    fn scan_less_than(&mut self) -> (r: Scanned)
        requires
            old(self).wf(),
            old(self).input.start_index() + 1 == old(self).input.index(),
            old(self).chars()[old(self).input.start_index() as int] == '<',
        ensures
            final(self).wf(),
            final(self).chars() == old(self).chars(),
            final(self).input.start_index() == old(self).input.start_index(),
            (final(self).input.index() as int, r) == scan_at(old(self).chars(), old(self).input.start_index() as int),
    {
        proof {
            self.input.lemma_wf();
        }
        if self.input.next_if_eq('=').is_some() {
            Ok(Kind::LessThanOrEqualTo)
        } else if self.input.next_if_eq('>').is_some() {
            Ok(Kind::NotEqual)
        } else {
            Ok(Kind::LessThan)
        }
    }

    /// Scans a token that starts with the `>` just consumed: `>=` or `>`.
    fn scan_greater_than(&mut self) -> (r: Scanned)
        requires
            old(self).wf(),
            old(self).input.start_index() + 1 == old(self).input.index(),
            old(self).chars()[old(self).input.start_index() as int] == '>',
        ensures
            final(self).wf(),
            final(self).chars() == old(self).chars(),
            final(self).input.start_index() == old(self).input.start_index(),
            (final(self).input.index() as int, r) == scan_at(old(self).chars(), old(self).input.start_index() as int),
    {
        proof {
            self.input.lemma_wf();
        }
        if self.input.next_if_eq('=').is_some() {
            Ok(Kind::GreaterThanOrEqualTo)
        } else {
            Ok(Kind::GreaterThan)
        }
    }

    /// Scans a number that starts with the `.` just consumed: a fraction of decimal digits.
    fn scan_fractional_number(&mut self) -> (r: Scanned)
        requires
            old(self).wf(),
            old(self).input.start_index() + 1 == old(self).input.index(),
            old(self).chars()[old(self).input.start_index() as int] == '.',
        ensures
            final(self).wf(),
            final(self).chars() == old(self).chars(),
            final(self).input.start_index() == old(self).input.start_index(),
            (final(self).input.index() as int, r) == scan_at(old(self).chars(), old(self).input.start_index() as int),
    {
        proof {
            self.input.lemma_wf();
        }
        let digits = self.scan_digits(DECIMAL);
        if digits == 0 {
            Err(ErrorKind::Number)
        } else {
            Ok(Kind::Number)
        }
    }

    /// Scans a number whose first digit has just been consumed.
    fn scan_number(&mut self) -> (r: Scanned)
        requires
            old(self).wf(),
            old(self).input.start_index() + 1 == old(self).input.index(),
            spec_is_ascii_digit(old(self).chars()[old(self).input.start_index() as int]),
        ensures
            final(self).wf(),
            final(self).chars() == old(self).chars(),
            final(self).input.start_index() == old(self).input.start_index(),
            (final(self).input.index() as int, r) == scan_number_at(old(self).chars(), old(self).input.start_index() as int),
    {
        let ghost s = self.input.chars();
        let ghost i = self.input.start_index() as int;
        let ghost a = run_end(s, i + 1, digit_of(10));
        proof {
            self.input.lemma_wf();
        }
        let first_digits = self.scan_digits(DECIMAL);
        proof {
            self.input.lemma_wf();
        }
        assert(self.input.index() == a);
        let mut integer_digits = first_digits + 1;
        let mut fraction_digits: usize = 0;
        let mut base = DECIMAL;
        let has_radix = self.input.next_if_eq('#').is_some();
        if has_radix {
            base = MAX_RADIX;
            integer_digits = self.scan_digits(base);
        }
        let ghost b = self.input.index() as int;
        proof {
            lemma_run_end_bounds(s, i + 1, digit_of(10));
        }
        if self.input.next_if_eq('.').is_some() {
            fraction_digits = self.scan_digits(base);
        }
        if integer_digits == 0 && fraction_digits == 0 {
            return Err(ErrorKind::Number);
        }
        let lexeme = self.input.peek_lexeme();
        if is_number(lexeme.as_str()) {
            Ok(Kind::Number)
        } else if has_radix && integer_digits == 0 {
            let chars = chars_of(lexeme.as_str());
            assert(first_digits + 1 == a - i);
            assert(a <= self.input.index());
            proof {
                self.input.lemma_wf();
            }
            assert(chars@.subrange(0, first_digits + 1) =~= s.subrange(i, a));
            if is_valid_radix_text(&chars, 0, first_digits + 1) {
                Ok(Kind::Number)
            } else {
                Err(ErrorKind::Number)
            }
        } else {
            Err(ErrorKind::Number)
        }
    }

    /// Scans the next token, skipping blank space and comments before it.
    ///
    /// Returns [`None`] once only blank space and comments are left.
    pub fn next(&mut self) -> (r: Option<Result<Token, LexicalError>>)
        requires
            old(self).wf(),
        ensures
            final(self).wf(),
            final(self).chars() == old(self).chars(),
            match next_token(old(self).chars(), old(self).position() as int) {
                None => r is None && final(self).position() == old(self).chars().len(),
                Some((start, end, outcome)) => r matches Some(t) && scanned_as(t, old(self).chars(), start, end, outcome)
                    && final(self).position() == end,
            },
    {
        let ghost s = self.input.chars();
        proof {
            self.input.lemma_wf();
            lemma_trivia_end_bounds(s, self.input.index() as int);
        }
        self.skip_trivia();
        let ghost t = self.input.index() as int;
        let c = match self.input.next() {
            Some(c) => c,
            None => {
                return None;
            },
        };
        assert(c == s[t]);
        let outcome: Scanned = match c {
            '+' => Ok(Kind::Plus),
            '-' => Ok(Kind::Minus),
            '*' => Ok(Kind::Star),
            '/' => Ok(Kind::Slash),
            '^' => Ok(Kind::Caret),
            '=' => Ok(Kind::Equal),
            '~' => Ok(Kind::Tilde),
            '%' => Ok(Kind::Percent),
            '_' => Ok(Kind::Underscore),
            '(' => Ok(Kind::LeftParenthesis),
            ')' => Ok(Kind::RightParenthesis),
            '[' => Ok(Kind::LeftBracket),
            ']' => Ok(Kind::RightBracket),
            '{' => Ok(Kind::LeftBrace),
            '}' => Ok(Kind::RightBrace),
            ',' => Ok(Kind::Comma),
            '<' => self.scan_less_than(),
            '>' => self.scan_greater_than(),
            '.' => self.scan_fractional_number(),
            _ => {
                if is_ascii_digit(c) {
                    self.scan_number()
                } else if is_xid_start(c) {
                    self.scan_identifier();
                    Ok(Kind::Identifier)
                } else {
                    self.scan_invalid();
                    Err(ErrorKind::Invalid)
                }
            },
        };
        assert((self.input.index() as int, outcome) == scan_at(s, t));
        Some(self.finish(outcome))
    }
}

/// `r` is the token or error of the given outcome, whose lexeme is `s[start..end]` starting at
/// the location of index `start`.
pub open spec fn scanned_as(
    r: Result<Token, LexicalError>,
    s: Seq<char>,
    start: int,
    end: int,
    outcome: Scanned,
) -> bool {
    let lexeme = (location_at(s, start), s.subrange(start, end));
    match outcome {
        Ok(kind) => r matches Ok(token) && token@ == (lexeme, kind),
        Err(kind) => r matches Err(error) && error@ == (lexeme, kind),
    }
}

/// Scanning a token consumes at least one character and stays within the input.
pub proof fn lemma_scan_at_advances(s: Seq<char>, i: int)
    requires
        0 <= i < s.len(),
    ensures
        i < scan_at(s, i).0 <= s.len(),
{
    lemma_run_end_bounds(s, i + 1, digit_of(10));
    lemma_run_end_bounds(s, i + 1, |d: char| unicode_xid_continue(d));
    lemma_run_end_bounds(s, i + 1, |d: char| invalid_continue(d));
    let a = run_end(s, i + 1, digit_of(10));
    if a < s.len() && s[a] == '#' {
        lemma_run_end_bounds(s, a + 1, digit_of(36));
        let b = run_end(s, a + 1, digit_of(36));
        if b < s.len() && s[b] == '.' {
            lemma_run_end_bounds(s, b + 1, digit_of(36));
        }
    } else if a < s.len() && s[a] == '.' {
        lemma_run_end_bounds(s, a + 1, digit_of(10));
    }
}

/// The tokens scanned one after the other from index `i` to the end of `s`: where each
/// starts and ends and what it is.
pub open spec fn scan_outcomes(s: Seq<char>, i: int) -> Seq<(int, int, Scanned)>
    decreases s.len() - i,
{
    match next_token(s, i) {
        Some((start, end, outcome)) => if i < end <= s.len() {
            seq![(start, end, outcome)] + scan_outcomes(s, end)
        } else {
            Seq::empty()
        },
        None => Seq::empty(),
    }
}

/// Scans all of `source`: the tokens and lexical errors one after the other, as
/// [`scan_outcomes`] lists them.
pub fn scan_all(source: &str) -> (r: Vec<Result<Token, LexicalError>>)
    requires
        can_walk(initial_position(), source@.len()),
    ensures
        r@.len() == scan_outcomes(source@, 0).len(),
        forall|k: int|
            0 <= k < r@.len() ==> scanned_as(
                #[trigger] r@[k],
                source@,
                scan_outcomes(source@, 0)[k].0,
                scan_outcomes(source@, 0)[k].1,
                scan_outcomes(source@, 0)[k].2,
            ),
{
    let ghost s = source@;
    let mut scanner = Scanner::from(source);
    let mut results: Vec<Result<Token, LexicalError>> = Vec::new();
    let ghost mut done: Seq<(int, int, Scanned)> = Seq::empty();
    let mut finished = false;
    assert(scan_outcomes(s, 0) =~= done + scan_outcomes(s, 0));
    while !finished
        invariant
            scanner.wf(),
            scanner.chars() == s,
            scan_outcomes(s, 0) == done + scan_outcomes(s, scanner.position() as int),
            finished ==> scan_outcomes(s, scanner.position() as int).len() == 0,
            done.len() == results@.len(),
            forall|k: int|
                0 <= k < results@.len() ==> scanned_as(
                    #[trigger] results@[k],
                    s,
                    done[k].0,
                    done[k].1,
                    done[k].2,
                ),
        decreases s.len() - scanner.position() + (if finished {
            0int
        } else {
            1int
        }),
    {
        proof {
            scanner.lemma_position();
        }
        let ghost p = scanner.position() as int;
        proof {
            lemma_trivia_end_bounds(s, p);
            if trivia_end(s, p) < s.len() {
                lemma_scan_at_advances(s, trivia_end(s, p));
            }
        }
        match scanner.next() {
            Some(result) => {
                let ghost entry = next_token(s, p)->0;
                proof {
                    assert(scan_outcomes(s, p) == seq![entry] + scan_outcomes(s, entry.1));
                    assert(done.push(entry) + scan_outcomes(s, entry.1) =~= done + (seq![entry]
                        + scan_outcomes(s, entry.1)));
                    done = done.push(entry);
                }
                results.push(result);
            },
            None => {
                proof {
                    scanner.lemma_position();
                    lemma_trivia_end_bounds(s, scanner.position() as int);
                }
                finished = true;
            },
        }
    }
    assert(scan_outcomes(s, 0) =~= done);
    results
}

} // verus!
