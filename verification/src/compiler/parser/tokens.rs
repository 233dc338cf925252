//! A sequence of tokens obtained through lexical analysis, read one at a time by the parser.
use crate::compiler::errors::{LexicalError, SyntacticalError};
use crate::compiler::token::{Kind, Token};
use crate::grammar::syntax::Symbol;
use vstd::prelude::*;

verus! {

/// Determines whether a token matches a given pattern.
pub trait TokenMatcher {
    /// Whether a token of the given kind matches.
    spec fn accepts(&self, kind: Kind) -> bool;

    /// Tests whether a token matches this pattern.
    fn matches(&self, token: &Token) -> (r: bool)
        ensures
            r == self.accepts(token@.1),
    ;
}

impl TokenMatcher for bool {
    open spec fn accepts(&self, kind: Kind) -> bool {
        *self
    }

    fn matches(&self, token: &Token) -> (r: bool) {
        *self
    }
}

impl TokenMatcher for Kind {
    open spec fn accepts(&self, kind: Kind) -> bool {
        kind == *self
    }

    fn matches(&self, token: &Token) -> (r: bool) {
        token.kind() == *self
    }
}

impl<'a> TokenMatcher for &'a [Kind] {
    open spec fn accepts(&self, kind: Kind) -> bool {
        self@.contains(kind)
    }

    fn matches(&self, token: &Token) -> (r: bool) {
        let kind = token.kind();
        let mut i: usize = 0;
        while i < self.len()
            invariant
                kind == token@.1,
                i <= self@.len(),
                forall|j: int| 0 <= j < i ==> self@[j] != kind,
            decreases self.len() - i,
        {
            if self[i] == kind {
                assert(self@[i as int] == kind);
                return true;
            }
            i = i + 1;
        }
        false
    }
}

/// A token as the syntax tree records it.
pub open spec fn token_symbol(token: Token) -> Symbol {
    let kind = token@.1;
    (
        kind,
        if kind == Kind::Number || kind == Kind::Identifier {
            Some(token@.0.1)
        } else {
            None
        },
    )
}

/// Tokens as the syntax tree records them.
pub open spec fn token_symbols(tokens: Seq<Token>) -> Seq<Symbol> {
    tokens.map_values(|t: Token| token_symbol(t))
}

/// An iterator sequence of tokens obtained through Lexical Analysis.
#[derive(Debug, PartialEq)]
pub struct Tokens {
    offset: usize,
    marker: Option<usize>,
    tokens: Vec<Token>,
}

impl Tokens {
    /// The tokens of the sequence.
    pub closed spec fn all(&self) -> Seq<Token> {
        self.tokens@
    }

    /// How many tokens have been read.
    pub closed spec fn position(&self) -> nat {
        self.offset as nat
    }

    /// The position marked for backtracking, where one is marked.
    pub closed spec fn marked(&self) -> Option<nat> {
        match self.marker {
            Some(m) => Some(m as nat),
            None => None,
        }
    }

    /// How many tokens are left to read.
    pub open spec fn remaining(&self) -> nat {
        (self.all().len() - self.position()) as nat
    }

    #[verifier::type_invariant]
    closed spec fn positions_in_range(&self) -> bool {
        &&& self.offset <= self.tokens@.len()
        &&& self.marker matches Some(m) ==> m <= self.tokens@.len()
    }

    /// `after` is this sequence with its current offset marked as the backtracking point.
    pub open spec fn marking(self, after: Self) -> bool {
        &&& after.all() == self.all()
        &&& after.position() == self.position()
        &&& after.marked() == Some(self.position())
    }

    /// `after` is this sequence moved back to its marked point, with the mark forgotten; with
    /// no mark, the offset stays.
    pub open spec fn backtracking(self, after: Self) -> bool {
        &&& after.all() == self.all()
        &&& after.marked() is None
        &&& after.position() == match self.marked() {
            Some(m) => m,
            None => self.position(),
        }
    }

    /// The sequence of `tokens`, none of them read yet.
    pub fn from(tokens: Vec<Token>) -> (r: Tokens)
        ensures
            r.all() == tokens@,
            r.position() == 0,
            r.marked() is None,
    {
        Tokens { tokens, offset: 0, marker: None }
    }

    /// The tokens among `input`, or the lexical errors among it where there are any.
    pub fn try_from(input: Vec<Result<Token, LexicalError>>) -> (r: Result<Self, SyntacticalError>)
        ensures
            (forall|i: int| 0 <= i < input@.len() ==> input@[i] is Ok) <==> r is Ok,
            r matches Ok(tokens) ==> tokens.position() == 0 && tokens.marked() is None
                && tokens.all() == input@.map_values(|t: Result<Token, LexicalError>| t->Ok_0),
            r matches Err(e) ==> e matches SyntacticalError::Lexical(errors) && errors@.len() > 0,
    {
        let mut errors: Vec<LexicalError> = Vec::new();
        let mut tokens: Vec<Token> = Vec::new();
        let mut input = input;
        let ghost all = input@;
        let total = input.len();
        // Reverse the results, so that popping takes them from the front.
        let mut reversed: Vec<Result<Token, LexicalError>> = Vec::new();
        while input.len() > 0
            invariant
                total == all.len(),
                input@.len() + reversed@.len() == all.len(),
                input@ == all.take(input@.len() as int),
                forall|j: int| 0 <= j < reversed@.len() ==> reversed@[j] == all[all.len() - 1 - j],
            decreases input.len(),
        {
            let result = input.pop().unwrap();
            reversed.push(result);
        }
        let mut i: usize = 0;
        while reversed.len() > 0
            invariant
                total == all.len(),
                i + reversed@.len() == all.len(),
                forall|j: int| 0 <= j < reversed@.len() ==> reversed@[j] == all[all.len() - 1 - j],
                errors@.len() == 0 <==> (forall|j: int| 0 <= j < i ==> all[j] is Ok),
                errors@.len() == 0 ==> tokens@ == all.take(i as int).map_values(
                    |t: Result<Token, LexicalError>| t->Ok_0,
                ),
            decreases reversed.len(),
        {
            let result = reversed.pop().unwrap();
            assert(result == all[i as int]);
            match result {
                Ok(token) => {
                    tokens.push(token);
                    assert(all.take(i as int + 1).map_values(
                        |t: Result<Token, LexicalError>| t->Ok_0,
                    ) =~= all.take(i as int).map_values(|t: Result<Token, LexicalError>| t->Ok_0).push(
                        all[i as int]->Ok_0,
                    ));
                },
                Err(error) => {
                    errors.push(error);
                },
            }
            i = i + 1;
        }
        assert(all.take(i as int) =~= all);
        if errors.len() == 0 {
            Ok(Tokens::from(tokens))
        } else {
            Err(SyntacticalError::Lexical(errors))
        }
    }
}

impl Tokens {
    /// Marks the current offset as a backtracking point.
    /// Backtracking is only possible when an offset has been marked.
    pub fn mark(&mut self)
        ensures
            old(self).marking(*final(self)),
    {
        proof {
            use_type_invariant(&*self);
        }
        self.marker = Some(self.offset);
    }

    /// Moves the offset back to the marked point, and forgets the mark.
    /// If no offset was marked, backtracking does nothing.
    pub fn backtrack(&mut self)
        ensures
            old(self).backtracking(*final(self)),
    {
        proof {
            use_type_invariant(&*self);
        }
        if let Some(offset) = self.marker {
            self.offset = offset;
        }
        self.marker = None;
    }

    /// Reads the next token, if there is one.
    pub fn next(&mut self) -> (r: Option<Token>)
        ensures
            final(self).all() == old(self).all(),
            final(self).marked() == old(self).marked(),
            final(self).position() <= final(self).all().len(),
            old(self).position() < old(self).all().len() ==> final(self).position() == old(
                self,
            ).position() + 1 && (r matches Some(t) && t@ == old(self).all()[old(self).position() as int]@),
            old(self).position() >= old(self).all().len() ==> final(self).position() == old(
                self,
            ).position() && r is None,
    {
        proof {
            use_type_invariant(&*self);
        }
        if self.offset < self.tokens.len() {
            let token = self.tokens[self.offset].duplicate();
            self.offset = self.offset + 1;
            Some(token)
        } else {
            None
        }
    }

    /// Peeks at the next [`Token`] in the sequence without advancing.
    pub fn peek(&self) -> (r: Option<&Token>)
        ensures
            self.position() <= self.all().len(),
            self.position() < self.all().len() ==> (r matches Some(t) && *t == self.all()[self.position() as int]),
            self.position() >= self.all().len() ==> r is None,
    {
        proof {
            use_type_invariant(self);
        }
        if self.offset < self.tokens.len() {
            Some(&self.tokens[self.offset])
        } else {
            None
        }
    }

    /// Reads the next token; [`SyntacticalError::Incomplete`] at the end of the sequence.
    pub fn next_token(&mut self) -> (r: Result<Token, SyntacticalError>)
        ensures
            final(self).all() == old(self).all(),
            final(self).marked() == old(self).marked(),
            final(self).position() <= final(self).all().len(),
            old(self).position() < old(self).all().len() ==> final(self).position() == old(
                self,
            ).position() + 1 && (r matches Ok(t) && t@ == old(self).all()[old(self).position() as int]@),
            old(self).position() >= old(self).all().len() ==> final(self).position() == old(
                self,
            ).position() && r matches Err(SyntacticalError::Incomplete),
    {
        match self.next() {
            Some(token) => Ok(token),
            None => Err(SyntacticalError::Incomplete),
        }
    }

    /// Tests whether the next token matches; [`None`] at the end of the sequence.
    /// Does not advance the sequence.
    pub fn next_matches<Matcher: TokenMatcher>(&self, matcher: Matcher) -> (r: Option<bool>)
        ensures
            self.position() <= self.all().len(),
            self.position() < self.all().len() ==> r == Some(
                matcher.accepts(self.all()[self.position() as int]@.1),
            ),
            self.position() >= self.all().len() ==> r is None,
    {
        match self.peek() {
            Some(token) => Some(matcher.matches(token)),
            None => None,
        }
    }

    /// Reads the next token where it matches. Otherwise, returns [`None`] and the sequence is
    /// not advanced.
    pub fn next_if_match<Matcher: TokenMatcher>(&mut self, matcher: Matcher) -> (r: Option<Token>)
        ensures
            final(self).all() == old(self).all(),
            final(self).marked() == old(self).marked(),
            final(self).position() <= final(self).all().len(),
            (old(self).position() < old(self).all().len() && matcher.accepts(
                old(self).all()[old(self).position() as int]@.1,
            )) ==> final(self).position() == old(self).position() + 1 && (r matches Some(t) && t@
                == old(self).all()[old(self).position() as int]@),
            !(old(self).position() < old(self).all().len() && matcher.accepts(
                old(self).all()[old(self).position() as int]@.1,
            )) ==> final(self).position() == old(self).position() && r is None,
    {
        let matched = match self.peek() {
            Some(token) => matcher.matches(token),
            None => false,
        };
        if matched {
            self.next()
        } else {
            None
        }
    }

    /// The kind of the next token, if one is present.
    pub fn peek_kind(&self) -> (r: Option<Kind>)
        ensures
            self.position() <= self.all().len(),
            self.position() < self.all().len() ==> r == Some(self.all()[self.position() as int]@.1),
            self.position() >= self.all().len() ==> r is None,
    {
        match self.peek() {
            Some(token) => Some(token.kind()),
            None => None,
        }
    }

    /// Tests whether any tokens are left, without reading any.
    pub fn has_next(&self) -> (r: bool)
        ensures
            self.position() <= self.all().len(),
            r == (self.position() < self.all().len()),
    {
        proof {
            use_type_invariant(self);
        }
        self.offset < self.tokens.len()
    }
}

impl Default for Tokens {
    fn default() -> (r: Tokens)
        ensures
            r.all().len() == 0,
            r.position() == 0,
            r.marked() is None,
    {
        Tokens::from(Vec::new())
    }
}

impl Clone for Tokens {
    fn clone(&self) -> (r: Tokens)
        ensures
            r.all().map_values(|t: Token| t@) == self.all().map_values(|t: Token| t@),
            r.position() == self.position(),
            r.marked() == self.marked(),
    {
        proof {
            use_type_invariant(self);
        }
        let mut tokens: Vec<Token> = Vec::new();
        let mut i: usize = 0;
        while i < self.tokens.len()
            invariant
                i <= self.tokens@.len(),
                tokens@.len() == i,
                forall|j: int| 0 <= j < i ==> tokens@[j]@ == self.tokens@[j]@,
            decreases self.tokens.len() - i,
        {
            tokens.push(self.tokens[i].duplicate());
            i = i + 1;
        }
        let r = Tokens { offset: self.offset, marker: self.marker, tokens };
        assert(r.all().map_values(|t: Token| t@) =~= self.all().map_values(|t: Token| t@));
        r
    }
}

/// Backtracking returns to the marked point: after marking, reading on leaves the tokens and
/// the mark as they were, and backtracking then restores the offset of the mark.
pub proof fn lemma_backtrack_to_mark(before: Tokens, marked: Tokens, later: Tokens, back: Tokens)
    requires
        before.marking(marked),
        later.all() == marked.all(),
        later.marked() == marked.marked(),
        later.backtracking(back),
    ensures
        back.all() == before.all(),
        back.position() == before.position(),
        back.marked() is None,
{
}

} // verus!
