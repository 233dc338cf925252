//! Parse a sequence of tokens into a syntax tree.
//!
//! The parser is a recursive descent LL(1) parser for the syntax grammar. Every node that it
//! builds stands for exactly the tokens that it read to build it.
pub mod grammar;
pub mod tokens;

use crate::compiler::parser::grammar::{
    arguments_rule, arguments_tail_rule, arithmetic_rule, assignment_rule, block_rule,
    block_tail_rule, bounds_rule, call_tail_rule, comparator_rule, comparison_rule,
    comparisons_rule, comparisons_tail_rule, derives, epsilon_rule, expression_rule, expressions_tail_rule, expect,
    expect_kind, function_rule, grouping_rest_rule, inequality_rule, is_primary_start, kinds,
    modulo_rule, modulo_tail_rule, name_rule, number_rest, optional_parameters_rule, Outcome,
    parameters_rule, parameters_tail_rule, pattern_rule, power_rule, power_tail_rule,
    primary_rule, product_rule, product_tail_rule, program_rule, sum_rule, sum_tail_rule,
};
use crate::compiler::blank::{blank_space_replaced, lemma_scan_outcomes_replaced};
use crate::compiler::errors::{LexicalError, SyntacticalError};
use crate::compiler::location::{can_walk, initial_position};
use crate::compiler::scanner::{scan_all, scan_outcomes, scanned_as, Scanned};
use crate::compiler::parser::tokens::{token_symbol, token_symbols, TokenMatcher, Tokens};
use crate::compiler::token::{Kind, Token};
use crate::grammar::lexical;
use crate::grammar::syntax::{
    addition_list_symbols, arguments_list_symbols, arguments_symbols, arithmetic_symbols,
    block_symbols, comparator_kind, comparison_list_symbols, comparison_symbols,
    expression_list_symbols, expression_symbols, function_symbols, inequality_kind, mark,
    modulo_symbols, multiplication_list_symbols, name_symbols, number_symbols, parameters_symbols,
    pattern_list_symbols, pattern_symbols, power_symbols, primary_list_symbols, primary_symbols,
    product_symbols, program_symbols, sum_list_symbols, sum_symbols, AddOrSubtract, Arguments,
    Arithmetic, Assignment, Block, Bound, Bounds, Call, Comparator, Comparison, Comparisons,
    Epsilon, Expression, Expressions, Function, Grouping, Inequality, Modulo, MultiplyOrDivide,
    Name, Number, Parameters, Pattern, Power, Primary, Product, Program, Refinement, Sum, Symbol,
};
use vstd::prelude::*;

verus! {

/// The tokens between positions `start` and `end`, as the syntax tree records them.
pub open spec fn read(tokens: Seq<Token>, start: nat, end: nat) -> Seq<Symbol> {
    token_symbols(tokens.subrange(start as int, end as int))
}

/// Reading two adjacent stretches of tokens reads the stretch that they make up.
pub proof fn lemma_read_concat(tokens: Seq<Token>, a: nat, b: nat, c: nat)
    requires
        a <= b <= c <= tokens.len(),
    ensures
        read(tokens, a, b) + read(tokens, b, c) == read(tokens, a, c),
{
    assert(read(tokens, a, b) + read(tokens, b, c) =~= read(tokens, a, c));
}

/// Reading one token reads its symbol.
pub proof fn lemma_read_one(tokens: Seq<Token>, a: nat)
    requires
        a < tokens.len(),
    ensures
        read(tokens, a, a + 1) == seq![token_symbol(tokens[a as int])],
{
    assert(read(tokens, a, a + 1) =~= seq![token_symbol(tokens[a as int])]);
}

/// What a step of parsing leaves: the same tokens and a position not moved back; on success,
/// at least one token read and a node whose symbols are exactly the tokens read.
pub open spec fn parsed(before: Tokens, after: Tokens, symbols: Option<Seq<Symbol>>) -> bool {
    &&& after.all() == before.all()
    &&& before.position() <= after.position() <= after.all().len()
    &&& symbols matches Some(s) ==> before.position() < after.position() && s == read(
        before.all(),
        before.position(),
        after.position(),
    )
}

/// The symbols of a parsed node, where there is one.
pub open spec fn symbols_of<T>(r: Result<T, SyntacticalError>, f: spec_fn(T) -> Seq<Symbol>) -> Option<
    Seq<Symbol>,
> {
    match r {
        Ok(node) => Some(f(node)),
        Err(_) => None,
    }
}

/// A result of parsing, read as the outcome of its rule: a node exactly where the rule is
/// read, ending where parsing stopped; [`SyntacticalError::Incomplete`] where the tokens end
/// inside the rule; [`SyntacticalError::NoMatch`] with the token that no rule accepts.
pub open spec fn follows<T>(r: Result<T, SyntacticalError>, tokens: Seq<Token>, end: nat, outcome: Outcome) -> bool {
    match outcome {
        Ok(j) => r is Ok && end == j,
        Err(None) => r matches Err(SyntacticalError::Incomplete),
        Err(Some(n)) => r matches Err(SyntacticalError::NoMatch(t)) && 0 <= n < tokens.len() && t@
            == tokens[n]@,
    }
}

/// A token of a kind whose text the tree does not keep stands for the mark of that kind.
proof fn lemma_mark(tokens: Seq<Token>, a: nat, kind: Kind)
    requires
        a < tokens.len(),
        tokens[a as int]@.1 == kind,
        kind != Kind::Number,
        kind != Kind::Identifier,
    ensures
        read(tokens, a, a + 1) == mark(kind),
{
    lemma_read_one(tokens, a);
}

/// A recursive descent LL(1) parser for the syntax grammar.
/// Parses a sequence of `Token`s into a syntax tree.
pub struct Parser {
    tokens: Tokens,
}

impl Parser {
    /// The tokens being parsed.
    pub closed spec fn spec_tokens(&self) -> Tokens {
        self.tokens
    }

    /// A parser of `tokens`.
    pub fn new(tokens: Tokens) -> (r: Parser)
        ensures
            r.spec_tokens() == tokens,
    {
        Parser { tokens }
    }

    /// Reads the next token where it matches; otherwise an error: [`SyntacticalError::NoMatch`]
    /// with the token, or [`SyntacticalError::Incomplete`] at the end of the tokens.
    fn next_kind<Matcher: TokenMatcher>(&mut self, matcher: Matcher) -> (r: Result<Token, SyntacticalError>)
        ensures
            final(self).tokens.all() == old(self).tokens.all(),
            old(self).tokens.position() <= final(self).tokens.position() <= final(self).tokens.all().len(),
            r matches Ok(t) ==> final(self).tokens.position() == old(self).tokens.position() + 1
                && t@ == old(self).tokens.all()[old(self).tokens.position() as int]@
                && matcher.accepts(t@.1),
            r is Err ==> final(self).tokens.position() == old(self).tokens.position(),
            r matches Err(SyntacticalError::NoMatch(t)) ==> old(self).tokens.position() < old(self).tokens.all().len()
                && t@ == old(self).tokens.all()[old(self).tokens.position() as int]@,
            r matches Err(SyntacticalError::Incomplete) ==> old(self).tokens.position() == old(self).tokens.all().len(),
            !(r matches Err(SyntacticalError::Lexical(_))),
            old(self).tokens.position() < old(self).tokens.all().len() ==> (r is Ok <==> matcher.accepts(
                old(self).tokens.all()[old(self).tokens.position() as int]@.1,
            )),
            old(self).tokens.position() >= old(self).tokens.all().len() ==> r matches Err(
                SyntacticalError::Incomplete,
            ),
    {
        match self.tokens.next_matches(matcher) {
            Some(true) => self.tokens.next_token(),
            Some(false) => match self.tokens.peek() {
                Some(token) => Err(SyntacticalError::NoMatch(token.duplicate())),
                None => Err(SyntacticalError::Incomplete),
            },
            None => Err(SyntacticalError::Incomplete),
        }
    }
}

/// Like [`parsed`], where the node may stand for no tokens at all.
pub open spec fn parsed_or_empty(before: Tokens, after: Tokens, symbols: Option<Seq<Symbol>>) -> bool {
    &&& after.all() == before.all()
    &&& before.position() <= after.position() <= after.all().len()
    &&& symbols matches Some(s) ==> s == read(before.all(), before.position(), after.position())
}

/// Like [`parsed`], for a node whose first token was read before the step.
pub open spec fn parsed_after(before: Tokens, after: Tokens, symbols: Option<Seq<Symbol>>) -> bool {
    &&& after.all() == before.all()
    &&& 1 <= before.position() <= after.position() <= after.all().len()
    &&& symbols matches Some(s) ==> s == read(before.all(), (before.position() - 1) as nat, after.position())
}

/// The kinds that start a comparison.
fn comparison_kinds() -> (r: Vec<Kind>)
    ensures
        forall|k: Kind| r@.contains(k) <==> is_comparison_kind(k),
{
    let r = vec![
        Kind::LessThan,
        Kind::GreaterThan,
        Kind::LessThanOrEqualTo,
        Kind::GreaterThanOrEqualTo,
        Kind::Equal,
        Kind::NotEqual,
    ];
    assert forall|k: Kind| r@.contains(k) <==> is_comparison_kind(k) by {
        if is_comparison_kind(k) {
            if k == Kind::LessThan { assert(r@[0] == k); }
            else if k == Kind::GreaterThan { assert(r@[1] == k); }
            else if k == Kind::LessThanOrEqualTo { assert(r@[2] == k); }
            else if k == Kind::GreaterThanOrEqualTo { assert(r@[3] == k); }
            else if k == Kind::Equal { assert(r@[4] == k); }
            else { assert(r@[5] == k); }
        }
    }
    r
}

pub open spec fn is_comparison_kind(k: Kind) -> bool {
    ||| k == Kind::LessThan
    ||| k == Kind::GreaterThan
    ||| k == Kind::LessThanOrEqualTo
    ||| k == Kind::GreaterThanOrEqualTo
    ||| k == Kind::Equal
    ||| k == Kind::NotEqual
}

pub open spec fn is_inequality_kind(k: Kind) -> bool {
    ||| k == Kind::LessThan
    ||| k == Kind::GreaterThan
    ||| k == Kind::LessThanOrEqualTo
    ||| k == Kind::GreaterThanOrEqualTo
}

pub open spec fn is_name_kind(k: Kind) -> bool {
    k == Kind::At || k == Kind::Underscore
}

/// The kinds that bound a value.
fn inequality_kinds() -> (r: Vec<Kind>)
    ensures
        forall|k: Kind| r@.contains(k) <==> is_inequality_kind(k),
{
    let r = vec![Kind::LessThan, Kind::GreaterThan, Kind::LessThanOrEqualTo, Kind::GreaterThanOrEqualTo];
    assert forall|k: Kind| r@.contains(k) <==> is_inequality_kind(k) by {
        if is_inequality_kind(k) {
            if k == Kind::LessThan { assert(r@[0] == k); }
            else if k == Kind::GreaterThan { assert(r@[1] == k); }
            else if k == Kind::LessThanOrEqualTo { assert(r@[2] == k); }
            else { assert(r@[3] == k); }
        }
    }
    r
}

/// The kinds that start a name.
fn name_kinds() -> (r: Vec<Kind>)
    ensures
        forall|k: Kind| r@.contains(k) <==> is_name_kind(k),
{
    let r = vec![Kind::At, Kind::Underscore];
    assert forall|k: Kind| r@.contains(k) <==> is_name_kind(k) by {
        if k == Kind::At { assert(r@[0] == k); }
        if k == Kind::Underscore { assert(r@[1] == k); }
    }
    r
}

impl Parser {
    fn parse_comparator(&mut self) -> (r: Result<Comparator, SyntacticalError>)
        ensures
            !(r matches Err(SyntacticalError::Lexical(_))),
            parsed(old(self).tokens, final(self).tokens, symbols_of(r, |c: Comparator| mark(comparator_kind(c)))),
            follows(r, old(self).tokens.all(), final(self).tokens.position(), comparator_rule(kinds(old(self).tokens.all()), old(self).tokens.position() as int)),
    {
        let ghost t = self.tokens.all();
        let ghost p = self.tokens.position();
        let kinds = comparison_kinds();
        let slice = kinds.as_slice();
        let token = self.next_kind(slice)?;
        assert(slice@.contains(token@.1));
        assert(is_comparison_kind(token@.1));
        let comparator = match token.kind() {
            Kind::LessThan => Comparator::LessThan,
            Kind::GreaterThan => Comparator::GreaterThan,
            Kind::LessThanOrEqualTo => Comparator::LessThanOrEqualTo,
            Kind::GreaterThanOrEqualTo => Comparator::GreaterThanOrEqualTo,
            Kind::NotEqual => Comparator::NotEqualTo,
            _ => Comparator::EqualTo,
        };
        proof {
            lemma_mark(t, p, token@.1);
        }
        Ok(comparator)
    }

    fn parse_inequality(&mut self) -> (r: Result<Inequality, SyntacticalError>)
        ensures
            !(r matches Err(SyntacticalError::Lexical(_))),
            parsed(old(self).tokens, final(self).tokens, symbols_of(r, |i: Inequality| mark(inequality_kind(i)))),
            follows(r, old(self).tokens.all(), final(self).tokens.position(), inequality_rule(kinds(old(self).tokens.all()), old(self).tokens.position() as int)),
    {
        let ghost t = self.tokens.all();
        let ghost p = self.tokens.position();
        let kinds = inequality_kinds();
        let slice = kinds.as_slice();
        let token = self.next_kind(slice)?;
        assert(slice@.contains(token@.1));
        assert(is_inequality_kind(token@.1));
        let inequality = match token.kind() {
            Kind::LessThan => Inequality::LessThan,
            Kind::GreaterThan => Inequality::GreaterThan,
            Kind::LessThanOrEqualTo => Inequality::LessThanOrEqualTo,
            _ => Inequality::GreaterThanOrEqualTo,
        };
        proof {
            lemma_mark(t, p, token@.1);
        }
        Ok(inequality)
    }

    fn parse_name(&mut self) -> (r: Result<Name, SyntacticalError>)
        ensures
            !(r matches Err(SyntacticalError::Lexical(_))),
            parsed(old(self).tokens, final(self).tokens, symbols_of(r, |n: Name| name_symbols(n))),
            follows(r, old(self).tokens.all(), final(self).tokens.position(), name_rule(kinds(old(self).tokens.all()), old(self).tokens.position() as int)),
    {
        let ghost t = self.tokens.all();
        let ghost p = self.tokens.position();
        let kinds = name_kinds();
        let slice = kinds.as_slice();
        let token = self.next_kind(slice)?;
        assert(slice@.contains(token@.1));
        assert(is_name_kind(token@.1));
        match token.kind() {
            Kind::At => {
                let identifier = self.next_kind(Kind::Identifier)?;
                proof {
                    lemma_mark(t, p, Kind::At);
                    lemma_read_one(t, p + 1);
                    lemma_read_concat(t, p, p + 1, p + 2);
                }
                Ok(Name::Identified(lexical::Identifier::new(identifier.as_str())))
            },
            _ => {
                proof {
                    lemma_mark(t, p, Kind::Underscore);
                }
                Ok(Name::Anonymous)
            },
        }
    }

    /// Parses a number whose first token, `-` or a number, was just read.
    fn parse_number(&mut self, token: Token) -> (r: Result<Number, SyntacticalError>)
        requires
            1 <= old(self).tokens.position() <= old(self).tokens.all().len(),
            token@ == old(self).tokens.all()[old(self).tokens.position() - 1]@,
            token@.1 == Kind::Minus || token@.1 == Kind::Number,
        ensures
            !(r matches Err(SyntacticalError::Lexical(_))),
            parsed_after(old(self).tokens, final(self).tokens, symbols_of(r, |n: Number| number_symbols(n))),
            follows(r, old(self).tokens.all(), final(self).tokens.position(), number_rest(kinds(old(self).tokens.all()), old(self).tokens.position() as int)),
    {
        let ghost t = self.tokens.all();
        let ghost p = self.tokens.position();
        match token.kind() {
            Kind::Minus => {
                let number = self.next_kind(Kind::Number)?;
                let n = Number { negative: true, number: lexical::Number::new(number.as_str()) };
                proof {
                    lemma_mark(t, (p - 1) as nat, Kind::Minus);
                    lemma_read_one(t, p);
                    lemma_read_concat(t, (p - 1) as nat, p, p + 1);
                }
                Ok(n)
            },
            _ => {
                let n = Number { negative: false, number: lexical::Number::new(token.as_str()) };
                proof {
                    lemma_read_one(t, (p - 1) as nat);
                    assert(number_symbols(n) =~= read(t, (p - 1) as nat, p));
                }
                Ok(n)
            },
        }
    }
}

impl Parser {
    fn parse_expression(&mut self) -> (r: Result<Expression, SyntacticalError>)
        ensures
            !(r matches Err(SyntacticalError::Lexical(_))),
            parsed(old(self).tokens, final(self).tokens, symbols_of(r, |n: Expression| expression_symbols(n))),
            follows(r, old(self).tokens.all(), final(self).tokens.position(), expression_rule(kinds(old(self).tokens.all()), old(self).tokens.position() as int)),
        decreases old(self).tokens.remaining(), 30nat,
    {
        let names = name_kinds();
        match self.tokens.next_matches(names.as_slice()) {
            Some(true) => {
                let assignment = self.parse_assignment()?;
                Ok(Expression::Assignment(Box::new(assignment)))
            },
            _ => {
                let arithmetic = self.parse_arithmetic()?;
                Ok(Expression::Arithmetic(arithmetic))
            },
        }
    }

    fn parse_assignment(&mut self) -> (r: Result<Assignment, SyntacticalError>)
        ensures
            !(r matches Err(SyntacticalError::Lexical(_))),
            parsed(
                old(self).tokens,
                final(self).tokens,
                symbols_of(r, |n: Assignment| expression_symbols(Expression::Assignment(Box::new(n)))),
            ),
            follows(r, old(self).tokens.all(), final(self).tokens.position(), assignment_rule(kinds(old(self).tokens.all()), old(self).tokens.position() as int)),
        decreases old(self).tokens.remaining(), 29nat,
    {
        let ghost t = self.tokens.all();
        let ghost start = self.tokens.position();
        let function = self.parse_function()?;
        let ghost p = self.tokens.position();
        self.next_kind(Kind::Equal)?;
        let block = self.parse_block()?;
        let ghost end = self.tokens.position();
        proof {
            lemma_mark(t, p, Kind::Equal);
            lemma_read_concat(t, start, p, p + 1);
            lemma_read_concat(t, start, p + 1, end);
        }
        Ok(Assignment { function, block })
    }

    fn parse_function(&mut self) -> (r: Result<Function, SyntacticalError>)
        ensures
            !(r matches Err(SyntacticalError::Lexical(_))),
            parsed(old(self).tokens, final(self).tokens, symbols_of(r, |n: Function| function_symbols(n))),
            follows(r, old(self).tokens.all(), final(self).tokens.position(), function_rule(kinds(old(self).tokens.all()), old(self).tokens.position() as int)),
        decreases old(self).tokens.remaining(), 28nat,
    {
        let ghost t = self.tokens.all();
        let ghost start = self.tokens.position();
        let name = self.parse_name()?;
        let ghost p = self.tokens.position();
        let parameters = self.parse_optional_parameters()?;
        let ghost end = self.tokens.position();
        proof {
            lemma_read_concat(t, start, p, end);
            if parameters is None {
                assert(read(t, p, end) =~= Seq::<Symbol>::empty());
            }
        }
        let function = Function { name, parameters };
        assert(function_symbols(function) =~= read(t, start, end));
        Ok(function)
    }

    fn parse_optional_parameters(&mut self) -> (r: Result<Option<Parameters>, SyntacticalError>)
        ensures
            !(r matches Err(SyntacticalError::Lexical(_))),
            parsed_or_empty(
                old(self).tokens,
                final(self).tokens,
                symbols_of(
                    r,
                    |n: Option<Parameters>| match n {
                        Some(p) => parameters_symbols(p),
                        None => Seq::empty(),
                    },
                ),
            ),
            r matches Ok(None) ==> final(self).tokens.position() == old(self).tokens.position(),
            follows(r, old(self).tokens.all(), final(self).tokens.position(), optional_parameters_rule(kinds(old(self).tokens.all()), old(self).tokens.position() as int)),
        decreases old(self).tokens.remaining(), 26nat,
    {
        match self.tokens.next_matches(Kind::LeftParenthesis) {
            Some(true) => {
                let parameters = self.parse_parameters()?;
                Ok(Some(parameters))
            },
            _ => {
                let ghost p = self.tokens.position();
                assert(read(self.tokens.all(), p, p) =~= Seq::<Symbol>::empty());
                Ok(None)
            },
        }
    }

    fn parse_parameters(&mut self) -> (r: Result<Parameters, SyntacticalError>)
        ensures
            !(r matches Err(SyntacticalError::Lexical(_))),
            parsed(old(self).tokens, final(self).tokens, symbols_of(r, |n: Parameters| parameters_symbols(n))),
            follows(r, old(self).tokens.all(), final(self).tokens.position(), parameters_rule(kinds(old(self).tokens.all()), old(self).tokens.position() as int)),
        decreases old(self).tokens.remaining(), 25nat,
    {
        let ghost t = self.tokens.all();
        let ghost start = self.tokens.position();
        self.next_kind(Kind::LeftParenthesis)?;
        let head = self.parse_pattern()?;
        let mut tail: Vec<Pattern> = Vec::new();
        let mut more = true;
        proof {
            lemma_mark(t, start, Kind::LeftParenthesis);
            lemma_read_concat(t, start, start + 1, self.tokens.position());
            assert(pattern_list_symbols(tail@) =~= Seq::<Symbol>::empty());
        }
        while more
            invariant
                self.tokens.all() == t,
                parameters_rule(kinds(t), start as int) == parameters_tail_rule(kinds(t), self.tokens.position() as int),
                !more ==> !grammar::next_is(kinds(t), self.tokens.position() as int, |x: Kind| x == Kind::Comma),
                old(self).tokens.all() == t,
                old(self).tokens.position() == start,
                start < self.tokens.position() <= t.len(),
                mark(Kind::LeftParenthesis) + pattern_symbols(head) + pattern_list_symbols(tail@) == read(
                    t,
                    start,
                    self.tokens.position(),
                ),
            decreases t.len() - self.tokens.position() + (if more {
                1int
            } else {
                0int
            }),
        {
            let ghost p = self.tokens.position();
            match self.tokens.next_if_match(Kind::Comma) {
                Some(_) => {
                    let pattern = self.parse_pattern()?;
                    let ghost q = self.tokens.position();
                    proof {
                        lemma_mark(t, p, Kind::Comma);
                        lemma_read_concat(t, start, p, p + 1);
                        lemma_read_concat(t, start, p + 1, q);
                        assert(tail@.push(pattern).drop_last() =~= tail@);
                    }
                    tail.push(pattern);
                },
                None => {
                    more = false;
                },
            }
        }
        let ghost p = self.tokens.position();
        self.next_kind(Kind::RightParenthesis)?;
        proof {
            lemma_mark(t, p, Kind::RightParenthesis);
            lemma_read_concat(t, start, p, p + 1);
        }
        Ok(Parameters { head, tail })
    }

    fn parse_pattern(&mut self) -> (r: Result<Pattern, SyntacticalError>)
        ensures
            !(r matches Err(SyntacticalError::Lexical(_))),
            parsed(old(self).tokens, final(self).tokens, symbols_of(r, |n: Pattern| pattern_symbols(n))),
            follows(r, old(self).tokens.all(), final(self).tokens.position(), pattern_rule(kinds(old(self).tokens.all()), old(self).tokens.position() as int)),
        decreases old(self).tokens.remaining(), 24nat,
    {
        let ghost t = self.tokens.all();
        let ghost start = self.tokens.position();
        let names = name_kinds();
        match self.tokens.next_matches(names.as_slice()) {
            Some(true) => {
                let name = self.parse_name()?;
                let ghost p = self.tokens.position();
                let comparisons = comparison_kinds();
                match self.tokens.next_matches(comparisons.as_slice()) {
                    Some(true) => {
                        let comparator = self.parse_comparator()?;
                        let constraint = self.parse_arithmetic()?;
                        let ghost end = self.tokens.position();
                        proof {
                            lemma_read_concat(t, start, p, p + 1);
                            lemma_read_concat(t, start, p + 1, end);
                        }
                        Ok(Pattern::Refinement(Refinement { name, comparator, constraint }))
                    },
                    _ => {
                        let parameters = self.parse_optional_parameters()?;
                        let ghost end = self.tokens.position();
                        proof {
                            lemma_read_concat(t, start, p, end);
                            if parameters is None {
                                assert(read(t, p, end) =~= Seq::<Symbol>::empty());
                            }
                        }
                        let function = Function { name, parameters };
                        assert(function_symbols(function) =~= read(t, start, end));
                        Ok(Pattern::Function(Box::new(function)))
                    },
                }
            },
            _ => {
                let bounds = self.parse_bounds()?;
                Ok(Pattern::Bounds(bounds))
            },
        }
    }

    fn parse_bounds(&mut self) -> (r: Result<Bounds, SyntacticalError>)
        ensures
            !(r matches Err(SyntacticalError::Lexical(_))),
            parsed(
                old(self).tokens,
                final(self).tokens,
                symbols_of(r, |n: Bounds| pattern_symbols(Pattern::Bounds(n))),
            ),
            follows(r, old(self).tokens.all(), final(self).tokens.position(), bounds_rule(kinds(old(self).tokens.all()), old(self).tokens.position() as int)),
        decreases old(self).tokens.remaining(), 23nat,
    {
        let ghost t = self.tokens.all();
        let ghost a = self.tokens.position();
        let left_constraint = self.parse_arithmetic()?;
        let ghost b = self.tokens.position();
        let left_inequality = self.parse_inequality()?;
        let ghost c = self.tokens.position();
        let name = self.parse_name()?;
        let ghost d = self.tokens.position();
        let right_inequality = self.parse_inequality()?;
        let ghost e = self.tokens.position();
        let right_constraint = self.parse_arithmetic()?;
        let ghost f = self.tokens.position();
        proof {
            lemma_read_concat(t, a, b, c);
            lemma_read_concat(t, a, c, d);
            lemma_read_concat(t, a, d, e);
            lemma_read_concat(t, a, e, f);
        }
        Ok(
            Bounds {
                left: Bound { constraint: left_constraint, inequality: left_inequality },
                name,
                right: Bound { constraint: right_constraint, inequality: right_inequality },
            },
        )
    }

    fn parse_block(&mut self) -> (r: Result<Block, SyntacticalError>)
        ensures
            !(r matches Err(SyntacticalError::Lexical(_))),
            parsed(old(self).tokens, final(self).tokens, symbols_of(r, |n: Block| block_symbols(n))),
            follows(r, old(self).tokens.all(), final(self).tokens.position(), block_rule(kinds(old(self).tokens.all()), old(self).tokens.position() as int)),
        decreases old(self).tokens.remaining(), 34nat,
    {
        let ghost t = self.tokens.all();
        let ghost start = self.tokens.position();
        match self.tokens.peek_kind() {
            Some(Kind::LeftBracket) => {
                self.next_kind(Kind::LeftBracket)?;
                let head = self.parse_expression()?;
                let ghost p = self.tokens.position();
                let first = self.parse_expression()?;
                let ghost q = self.tokens.position();
                let mut tail: Vec<Expression> = Vec::new();
                proof {
                    lemma_mark(t, start, Kind::LeftBracket);
                    assert(tail@.push(first).drop_last() =~= tail@);
                    assert(expression_list_symbols(tail@, None) =~= Seq::<Symbol>::empty());
                }
                tail.push(first);
                proof {
                    assert(expression_list_symbols(tail@, None) =~= expression_symbols(first));
                    lemma_read_concat(t, start, start + 1, p);
                    lemma_read_concat(t, start, p, q);
                }
                let mut more = true;
                while more
                    invariant
                        self.tokens.all() == t,
                block_rule(kinds(t), start as int) == block_tail_rule(kinds(t), self.tokens.position() as int),
                !more ==> !(self.tokens.position() < t.len() && kinds(t)[self.tokens.position() as int] != Kind::RightBracket),
                        old(self).tokens.all() == t,
                        old(self).tokens.position() == start,
                        start < self.tokens.position() <= t.len(),
                        tail@.len() >= 1,
                        mark(Kind::LeftBracket) + expression_symbols(head) + expression_list_symbols(
                            tail@,
                            None,
                        ) == read(t, start, self.tokens.position()),
                    decreases t.len() - self.tokens.position() + (if more {
                        1int
                    } else {
                        0int
                    }),
                {
                    let ghost a = self.tokens.position();
                    match self.tokens.next_matches(Kind::RightBracket) {
                        Some(false) => {
                            let expression = self.parse_expression()?;
                            let ghost b = self.tokens.position();
                            proof {
                                lemma_read_concat(t, start, a, b);
                                assert(tail@.push(expression).drop_last() =~= tail@);
                            }
                            tail.push(expression);
                        },
                        _ => {
                            more = false;
                        },
                    }
                }
                let ghost a = self.tokens.position();
                self.next_kind(Kind::RightBracket)?;
                proof {
                    lemma_mark(t, a, Kind::RightBracket);
                    lemma_read_concat(t, start, a, a + 1);
                }
                Ok(Block { head, tail })
            },
            _ => {
                let head = self.parse_expression()?;
                let block = Block { head, tail: Vec::new() };
                assert(block.tail@.len() == 0);
                Ok(block)
            },
        }
    }
}

impl Parser {
    fn parse_arithmetic(&mut self) -> (r: Result<Arithmetic, SyntacticalError>)
        ensures
            !(r matches Err(SyntacticalError::Lexical(_))),
            parsed(old(self).tokens, final(self).tokens, symbols_of(r, |n: Arithmetic| arithmetic_symbols(n))),
            follows(r, old(self).tokens.all(), final(self).tokens.position(), arithmetic_rule(kinds(old(self).tokens.all()), old(self).tokens.position() as int)),
        decreases old(self).tokens.remaining(), 20nat,
    {
        let epsilon = self.parse_epsilon()?;
        Ok(Arithmetic { epsilon })
    }

    fn parse_epsilon(&mut self) -> (r: Result<Epsilon, SyntacticalError>)
        ensures
            !(r matches Err(SyntacticalError::Lexical(_))),
            parsed(
                old(self).tokens,
                final(self).tokens,
                symbols_of(r, |n: Epsilon| arithmetic_symbols(Arithmetic { epsilon: n })),
            ),
            follows(r, old(self).tokens.all(), final(self).tokens.position(), epsilon_rule(kinds(old(self).tokens.all()), old(self).tokens.position() as int)),
        decreases old(self).tokens.remaining(), 19nat,
    {
        let ghost t = self.tokens.all();
        let ghost start = self.tokens.position();
        let lhs = self.parse_modulo()?;
        let ghost p = self.tokens.position();
        match self.tokens.next_if_match(Kind::Tilde) {
            Some(_) => {
                let rhs = self.parse_modulo()?;
                let ghost end = self.tokens.position();
                proof {
                    lemma_mark(t, p, Kind::Tilde);
                    lemma_read_concat(t, p, p + 1, end);
                    lemma_read_concat(t, start, p, end);
                }
                Ok(Epsilon { lhs, rhs: Some(rhs) })
            },
            None => {
                let epsilon = Epsilon { lhs, rhs: None };
                assert(arithmetic_symbols(Arithmetic { epsilon }) =~= modulo_symbols(lhs));
                Ok(epsilon)
            },
        }
    }

    #[verifier::rlimit(40)]
    fn parse_modulo(&mut self) -> (r: Result<Modulo, SyntacticalError>)
        ensures
            !(r matches Err(SyntacticalError::Lexical(_))),
            parsed(old(self).tokens, final(self).tokens, symbols_of(r, |n: Modulo| modulo_symbols(n))),
            follows(r, old(self).tokens.all(), final(self).tokens.position(), modulo_rule(kinds(old(self).tokens.all()), old(self).tokens.position() as int)),
        decreases old(self).tokens.remaining(), 18nat,
    {
        let ghost t = self.tokens.all();
        let ghost start = self.tokens.position();
        let head = self.parse_sum()?;
        let mut tail: Vec<Sum> = Vec::new();
        let mut more = true;
        assert(sum_list_symbols(tail@) =~= Seq::<Symbol>::empty());
        while more
            invariant
                self.tokens.all() == t,
                modulo_rule(kinds(t), start as int) == modulo_tail_rule(kinds(t), self.tokens.position() as int),
                !more ==> !grammar::next_is(kinds(t), self.tokens.position() as int, |x: Kind| x == Kind::Percent),
                old(self).tokens.all() == t,
                old(self).tokens.position() == start,
                start < self.tokens.position() <= t.len(),
                sum_symbols(head) + sum_list_symbols(tail@) == read(t, start, self.tokens.position()),
            decreases t.len() - self.tokens.position() + (if more {
                1int
            } else {
                0int
            }),
        {
            let ghost p = self.tokens.position();
            match self.tokens.next_if_match(Kind::Percent) {
                Some(_) => {
                    let sum = self.parse_sum()?;
                    let ghost q = self.tokens.position();
                    proof {
                        lemma_mark(t, p, Kind::Percent);
                        lemma_read_concat(t, start, p, p + 1);
                        lemma_read_concat(t, start, p + 1, q);
                        assert(tail@.push(sum).drop_last() =~= tail@);
                        assert(sum_list_symbols(tail@.push(sum)) == sum_list_symbols(tail@) + mark(
                            Kind::Percent,
                        ) + sum_symbols(sum));
                    }
                    tail.push(sum);
                },
                None => {
                    more = false;
                },
            }
        }
        Ok(Modulo { head, tail })
    }

    #[verifier::rlimit(40)]
    fn parse_sum(&mut self) -> (r: Result<Sum, SyntacticalError>)
        ensures
            !(r matches Err(SyntacticalError::Lexical(_))),
            parsed(old(self).tokens, final(self).tokens, symbols_of(r, |n: Sum| sum_symbols(n))),
            follows(r, old(self).tokens.all(), final(self).tokens.position(), sum_rule(kinds(old(self).tokens.all()), old(self).tokens.position() as int)),
        decreases old(self).tokens.remaining(), 17nat,
    {
        let ghost t = self.tokens.all();
        let ghost start = self.tokens.position();
        let head = self.parse_product()?;
        let operators = vec![Kind::Plus, Kind::Minus];
        let mut tail: Vec<AddOrSubtract> = Vec::new();
        let mut more = true;
        assert(addition_list_symbols(tail@) =~= Seq::<Symbol>::empty());
        while more
            invariant
                self.tokens.all() == t,
                sum_rule(kinds(t), start as int) == sum_tail_rule(kinds(t), self.tokens.position() as int),
                !more ==> !grammar::next_is(kinds(t), self.tokens.position() as int, |x: Kind| x == Kind::Plus || x == Kind::Minus),
                old(self).tokens.all() == t,
                old(self).tokens.position() == start,
                start < self.tokens.position() <= t.len(),
                operators@ == seq![Kind::Plus, Kind::Minus],
                product_symbols(head) + addition_list_symbols(tail@) == read(t, start, self.tokens.position()),
            decreases t.len() - self.tokens.position() + (if more {
                1int
            } else {
                0int
            }),
        {
            let ghost p = self.tokens.position();
            let slice = operators.as_slice();
            match self.tokens.next_if_match(slice) {
                Some(token) => {
                    assert(slice@.contains(token@.1));
                    assert(token@.1 == Kind::Plus || token@.1 == Kind::Minus);
                    assert(grammar::next_is(kinds(t), p as int, |x: Kind| x == Kind::Plus || x == Kind::Minus));
                    let rhs = self.parse_product()?;
                    let ghost q = self.tokens.position();
                    let operation = match token.kind() {
                        Kind::Plus => AddOrSubtract::Add(rhs),
                        _ => AddOrSubtract::Subtract(rhs),
                    };
                    proof {
                        lemma_mark(t, p, token@.1);
                        lemma_read_concat(t, start, p, p + 1);
                        lemma_read_concat(t, start, p + 1, q);
                        assert(tail@.push(operation).drop_last() =~= tail@);
                    }
                    tail.push(operation);
                },
                None => {
                    assert(slice@[0] == Kind::Plus && slice@[1] == Kind::Minus);
                    more = false;
                },
            }
        }
        Ok(Sum { head, tail })
    }

    #[verifier::rlimit(40)]
    fn parse_product(&mut self) -> (r: Result<Product, SyntacticalError>)
        ensures
            !(r matches Err(SyntacticalError::Lexical(_))),
            parsed(old(self).tokens, final(self).tokens, symbols_of(r, |n: Product| product_symbols(n))),
            follows(r, old(self).tokens.all(), final(self).tokens.position(), product_rule(kinds(old(self).tokens.all()), old(self).tokens.position() as int)),
        decreases old(self).tokens.remaining(), 16nat,
    {
        let ghost t = self.tokens.all();
        let ghost start = self.tokens.position();
        let head = self.parse_power()?;
        let operators = vec![Kind::Star, Kind::Slash];
        let mut tail: Vec<MultiplyOrDivide> = Vec::new();
        let mut more = true;
        assert(multiplication_list_symbols(tail@) =~= Seq::<Symbol>::empty());
        while more
            invariant
                self.tokens.all() == t,
                product_rule(kinds(t), start as int) == product_tail_rule(kinds(t), self.tokens.position() as int),
                !more ==> !grammar::next_is(kinds(t), self.tokens.position() as int, |x: Kind| x == Kind::Star || x == Kind::Slash),
                old(self).tokens.all() == t,
                old(self).tokens.position() == start,
                start < self.tokens.position() <= t.len(),
                operators@ == seq![Kind::Star, Kind::Slash],
                power_symbols(head) + multiplication_list_symbols(tail@) == read(t, start, self.tokens.position()),
            decreases t.len() - self.tokens.position() + (if more {
                1int
            } else {
                0int
            }),
        {
            let ghost p = self.tokens.position();
            let slice = operators.as_slice();
            match self.tokens.next_if_match(slice) {
                Some(token) => {
                    assert(slice@.contains(token@.1));
                    let rhs = self.parse_power()?;
                    let ghost q = self.tokens.position();
                    let operation = match token.kind() {
                        Kind::Star => MultiplyOrDivide::Multiply(rhs),
                        _ => MultiplyOrDivide::Divide(rhs),
                    };
                    proof {
                        lemma_mark(t, p, token@.1);
                        lemma_read_concat(t, start, p, p + 1);
                        lemma_read_concat(t, start, p + 1, q);
                        assert(tail@.push(operation).drop_last() =~= tail@);
                    }
                    tail.push(operation);
                },
                None => {
                    more = false;
                },
            }
        }
        Ok(Product { head, tail })
    }

    #[verifier::rlimit(40)]
    fn parse_power(&mut self) -> (r: Result<Power, SyntacticalError>)
        ensures
            !(r matches Err(SyntacticalError::Lexical(_))),
            parsed(old(self).tokens, final(self).tokens, symbols_of(r, |n: Power| power_symbols(n))),
            follows(r, old(self).tokens.all(), final(self).tokens.position(), power_rule(kinds(old(self).tokens.all()), old(self).tokens.position() as int)),
        decreases old(self).tokens.remaining(), 15nat,
    {
        let ghost t = self.tokens.all();
        let ghost start = self.tokens.position();
        let head = self.parse_primary()?;
        let mut tail: Vec<Primary> = Vec::new();
        let mut more = true;
        assert(primary_list_symbols(tail@) =~= Seq::<Symbol>::empty());
        while more
            invariant
                self.tokens.all() == t,
                power_rule(kinds(t), start as int) == power_tail_rule(kinds(t), self.tokens.position() as int),
                !more ==> !grammar::next_is(kinds(t), self.tokens.position() as int, |x: Kind| x == Kind::Caret),
                old(self).tokens.all() == t,
                old(self).tokens.position() == start,
                start < self.tokens.position() <= t.len(),
                primary_symbols(head) + primary_list_symbols(tail@) == read(t, start, self.tokens.position()),
            decreases t.len() - self.tokens.position() + (if more {
                1int
            } else {
                0int
            }),
        {
            let ghost p = self.tokens.position();
            match self.tokens.next_if_match(Kind::Caret) {
                Some(_) => {
                    let primary = self.parse_primary()?;
                    let ghost q = self.tokens.position();
                    proof {
                        lemma_mark(t, p, Kind::Caret);
                        lemma_read_concat(t, start, p, p + 1);
                        lemma_read_concat(t, start, p + 1, q);
                        assert(tail@.push(primary).drop_last() =~= tail@);
                    }
                    tail.push(primary);
                },
                None => {
                    more = false;
                },
            }
        }
        Ok(Power { head, tail })
    }

    fn parse_primary(&mut self) -> (r: Result<Primary, SyntacticalError>)
        ensures
            !(r matches Err(SyntacticalError::Lexical(_))),
            parsed(old(self).tokens, final(self).tokens, symbols_of(r, |n: Primary| primary_symbols(n))),
            follows(r, old(self).tokens.all(), final(self).tokens.position(), primary_rule(kinds(old(self).tokens.all()), old(self).tokens.position() as int)),
        decreases old(self).tokens.remaining(), 14nat,
    {
        let kinds = vec![Kind::Minus, Kind::Number, Kind::Identifier, Kind::LeftParenthesis];
        let slice = kinds.as_slice();
        let token = self.next_kind(slice)?;
        assert(slice@.contains(token@.1));
        assert(slice@ == seq![Kind::Minus, Kind::Number, Kind::Identifier, Kind::LeftParenthesis]);
        match token.kind() {
            Kind::Minus | Kind::Number => {
                let number = self.parse_number(token)?;
                Ok(Primary::Number(number))
            },
            Kind::Identifier => {
                let call = self.parse_call(token)?;
                Ok(Primary::Call(call))
            },
            _ => {
                let grouping = self.parse_grouping(token)?;
                Ok(Primary::Grouping(grouping))
            },
        }
    }

    /// Parses a call whose identifier was just read.
    fn parse_call(&mut self, identifier: Token) -> (r: Result<Call, SyntacticalError>)
        requires
            1 <= old(self).tokens.position() <= old(self).tokens.all().len(),
            identifier@ == old(self).tokens.all()[old(self).tokens.position() - 1]@,
            identifier@.1 == Kind::Identifier,
        ensures
            !(r matches Err(SyntacticalError::Lexical(_))),
            parsed_after(
                old(self).tokens,
                final(self).tokens,
                symbols_of(r, |n: Call| primary_symbols(Primary::Call(n))),
            ),
            follows(r, old(self).tokens.all(), final(self).tokens.position(), call_tail_rule(kinds(old(self).tokens.all()), old(self).tokens.position() as int)),
        decreases old(self).tokens.remaining(), 13nat,
    {
        let ghost t = self.tokens.all();
        let ghost start = (self.tokens.position() - 1) as nat;
        let mut arguments: Vec<Arguments> = Vec::new();
        let mut more = true;
        proof {
            lemma_read_one(t, start);
            assert(arguments_list_symbols(arguments@) =~= Seq::<Symbol>::empty());
        }
        while more
            invariant
                self.tokens.all() == t,
                call_tail_rule(kinds(t), start + 1int) == call_tail_rule(kinds(t), self.tokens.position() as int),
                !more ==> !grammar::next_is(kinds(t), self.tokens.position() as int, |x: Kind| x == Kind::LeftParenthesis),
                old(self).tokens.all() == t,
                old(self).tokens.position() == start + 1,
                start < self.tokens.position() <= t.len(),
                seq![(Kind::Identifier, Some(identifier@.0.1))] + arguments_list_symbols(arguments@) == read(
                    t,
                    start,
                    self.tokens.position(),
                ),
            decreases t.len() - self.tokens.position() + (if more {
                1int
            } else {
                0int
            }),
        {
            let ghost p = self.tokens.position();
            match self.tokens.next_matches(Kind::LeftParenthesis) {
                Some(true) => {
                    let argument = self.parse_arguments()?;
                    let ghost q = self.tokens.position();
                    proof {
                        lemma_read_concat(t, start, p, q);
                        assert(arguments@.push(argument).drop_last() =~= arguments@);
                    }
                    arguments.push(argument);
                },
                _ => {
                    more = false;
                },
            }
        }
        Ok(Call { identifier: lexical::Identifier::new(identifier.as_str()), arguments })
    }

    fn parse_arguments(&mut self) -> (r: Result<Arguments, SyntacticalError>)
        ensures
            !(r matches Err(SyntacticalError::Lexical(_))),
            parsed(old(self).tokens, final(self).tokens, symbols_of(r, |n: Arguments| arguments_symbols(n))),
            follows(r, old(self).tokens.all(), final(self).tokens.position(), arguments_rule(kinds(old(self).tokens.all()), old(self).tokens.position() as int)),
        decreases old(self).tokens.remaining(), 12nat,
    {
        let ghost t = self.tokens.all();
        let ghost start = self.tokens.position();
        self.next_kind(Kind::LeftParenthesis)?;
        let head = self.parse_expression()?;
        let mut tail: Vec<Expression> = Vec::new();
        let mut more = true;
        proof {
            lemma_mark(t, start, Kind::LeftParenthesis);
            lemma_read_concat(t, start, start + 1, self.tokens.position());
            assert(expression_list_symbols(tail@, Some(Kind::Comma)) =~= Seq::<Symbol>::empty());
        }
        while more
            invariant
                self.tokens.all() == t,
                arguments_rule(kinds(t), start as int) == arguments_tail_rule(kinds(t), self.tokens.position() as int),
                !more ==> !grammar::next_is(kinds(t), self.tokens.position() as int, |x: Kind| x == Kind::Comma),
                old(self).tokens.all() == t,
                old(self).tokens.position() == start,
                start < self.tokens.position() <= t.len(),
                mark(Kind::LeftParenthesis) + expression_symbols(head) + expression_list_symbols(
                    tail@,
                    Some(Kind::Comma),
                ) == read(t, start, self.tokens.position()),
            decreases t.len() - self.tokens.position() + (if more {
                1int
            } else {
                0int
            }),
        {
            let ghost p = self.tokens.position();
            match self.tokens.next_if_match(Kind::Comma) {
                Some(_) => {
                    let expression = self.parse_expression()?;
                    let ghost q = self.tokens.position();
                    proof {
                        lemma_mark(t, p, Kind::Comma);
                        lemma_read_concat(t, start, p, p + 1);
                        lemma_read_concat(t, start, p + 1, q);
                        assert(tail@.push(expression).drop_last() =~= tail@);
                    }
                    tail.push(expression);
                },
                None => {
                    more = false;
                },
            }
        }
        let ghost p = self.tokens.position();
        self.next_kind(Kind::RightParenthesis)?;
        proof {
            lemma_mark(t, p, Kind::RightParenthesis);
            lemma_read_concat(t, start, p, p + 1);
        }
        Ok(Arguments { head, tail })
    }

    /// Parses a grouping whose `(` was just read.
    fn parse_grouping(&mut self, open: Token) -> (r: Result<Grouping, SyntacticalError>)
        requires
            1 <= old(self).tokens.position() <= old(self).tokens.all().len(),
            open@ == old(self).tokens.all()[old(self).tokens.position() - 1]@,
            open@.1 == Kind::LeftParenthesis,
        ensures
            !(r matches Err(SyntacticalError::Lexical(_))),
            parsed_after(
                old(self).tokens,
                final(self).tokens,
                symbols_of(r, |n: Grouping| primary_symbols(Primary::Grouping(n))),
            ),
            follows(r, old(self).tokens.all(), final(self).tokens.position(), grouping_rest_rule(kinds(old(self).tokens.all()), old(self).tokens.position() as int)),
        decreases old(self).tokens.remaining(), 35nat,
    {
        let ghost t = self.tokens.all();
        let ghost start = (self.tokens.position() - 1) as nat;
        let expression = self.parse_expression()?;
        let ghost p = self.tokens.position();
        self.next_kind(Kind::RightParenthesis)?;
        proof {
            lemma_mark(t, start, Kind::LeftParenthesis);
            lemma_mark(t, p, Kind::RightParenthesis);
            lemma_read_concat(t, start, start + 1, p);
            lemma_read_concat(t, start, p, p + 1);
        }
        Ok(Grouping { inner: Box::new(expression) })
    }
}

impl Parser {
    fn parse_comparison(&mut self) -> (r: Result<Comparison, SyntacticalError>)
        ensures
            !(r matches Err(SyntacticalError::Lexical(_))),
            parsed(old(self).tokens, final(self).tokens, symbols_of(r, |n: Comparison| comparison_symbols(n))),
            follows(r, old(self).tokens.all(), final(self).tokens.position(), comparison_rule(kinds(old(self).tokens.all()), old(self).tokens.position() as int)),
    {
        let ghost t = self.tokens.all();
        let ghost start = self.tokens.position();
        let comparator = self.parse_comparator()?;
        let ghost p = self.tokens.position();
        let rhs = self.parse_expression()?;
        proof {
            lemma_read_concat(t, start, p, self.tokens.position());
        }
        Ok(Comparison { comparator, rhs })
    }

    /// Parses the expressions that follow the first expression of a program, which was read
    /// from `start`.
    fn parse_expressions(&mut self, first: Expression, Ghost(start): Ghost<nat>) -> (r: Result<
        Program,
        SyntacticalError,
    >)
        requires
            start < old(self).tokens.position() <= old(self).tokens.all().len(),
            expression_symbols(first) == read(old(self).tokens.all(), start, old(self).tokens.position()),
        ensures
            !(r matches Err(SyntacticalError::Lexical(_))),
            final(self).tokens.all() == old(self).tokens.all(),
            r matches Ok(p) ==> final(self).tokens.position() == final(self).tokens.all().len()
                && program_symbols(p) == read(old(self).tokens.all(), start, final(self).tokens.position()),
            follows(r, old(self).tokens.all(), final(self).tokens.position(), expressions_tail_rule(kinds(old(self).tokens.all()), old(self).tokens.position() as int)),
    {
        let ghost t = self.tokens.all();
        let ghost p0 = self.tokens.position();
        assert(kinds(t).len() == t.len());
        let mut tail: Vec<Expression> = Vec::new();
        assert(expression_list_symbols(tail@, None) =~= Seq::<Symbol>::empty());
        while self.tokens.has_next()
            invariant
                self.tokens.all() == t,
                expressions_tail_rule(kinds(t), p0 as int) == expressions_tail_rule(kinds(t), self.tokens.position() as int),
                p0 == old(self).tokens.position(),
                kinds(t).len() == t.len(),
                old(self).tokens.all() == t,
                start < self.tokens.position() <= t.len(),
                expression_symbols(first) + expression_list_symbols(tail@, None) == read(
                    t,
                    start,
                    self.tokens.position(),
                ),
            decreases t.len() - self.tokens.position(),
        {
            let ghost p = self.tokens.position();
            let expression = self.parse_expression()?;
            proof {
                lemma_read_concat(t, start, p, self.tokens.position());
                assert(tail@.push(expression).drop_last() =~= tail@);
            }
            tail.push(expression);
        }
        assert(kinds(t).len() == t.len());
        Ok(Program::Expressions(Expressions { head: first, tail }))
    }

    /// Parses the comparisons that follow the first expression of a program, which was read
    /// from `start`.
    fn parse_comparisons(&mut self, first: Expression, Ghost(start): Ghost<nat>) -> (r: Result<
        Program,
        SyntacticalError,
    >)
        requires
            start < old(self).tokens.position() <= old(self).tokens.all().len(),
            expression_symbols(first) == read(old(self).tokens.all(), start, old(self).tokens.position()),
        ensures
            !(r matches Err(SyntacticalError::Lexical(_))),
            final(self).tokens.all() == old(self).tokens.all(),
            r matches Ok(p) ==> final(self).tokens.position() == final(self).tokens.all().len()
                && program_symbols(p) == read(old(self).tokens.all(), start, final(self).tokens.position()),
            follows(r, old(self).tokens.all(), final(self).tokens.position(), comparisons_rule(kinds(old(self).tokens.all()), old(self).tokens.position() as int)),
    {
        let ghost t = self.tokens.all();
        let ghost p = self.tokens.position();
        let head = self.parse_comparison()?;
        proof {
            lemma_read_concat(t, start, p, self.tokens.position());
            assert(kinds(t).len() == t.len());
        }
        let mut tail: Vec<Comparison> = Vec::new();
        assert(comparison_list_symbols(tail@) =~= Seq::<Symbol>::empty());
        while self.tokens.has_next()
            invariant
                self.tokens.all() == t,
                comparisons_rule(kinds(t), p as int) == comparisons_tail_rule(kinds(t), self.tokens.position() as int),
                p == old(self).tokens.position(),
                kinds(t).len() == t.len(),
                old(self).tokens.all() == t,
                start < self.tokens.position() <= t.len(),
                expression_symbols(first) + comparison_symbols(head) + comparison_list_symbols(tail@)
                    == read(t, start, self.tokens.position()),
            decreases t.len() - self.tokens.position(),
        {
            let ghost q = self.tokens.position();
            let comparison = self.parse_comparison()?;
            proof {
                lemma_read_concat(t, start, q, self.tokens.position());
                assert(tail@.push(comparison).drop_last() =~= tail@);
            }
            tail.push(comparison);
        }
        assert(kinds(t).len() == t.len());
        Ok(Program::Comparisons(Comparisons { lhs: first, head, tail }))
    }

    /// Generate a syntax tree rooted at a `Program` for this `Parser`'s sequence of tokens.
    /// Parsing succeeds exactly where the tokens that are left make a program by the grammar
    /// ([`program_rule`]), and the program stands for all of them; otherwise the error says
    /// whether the tokens ended inside a rule or which token no rule accepts.
    pub fn parse(self) -> (r: Result<Program, SyntacticalError>)
        ensures
            !(r matches Err(SyntacticalError::Lexical(_))),
            r matches Ok(p) ==> program_symbols(p) == read(
                self.spec_tokens().all(),
                self.spec_tokens().position(),
                self.spec_tokens().all().len(),
            ),
            follows(r, self.spec_tokens().all(), self.spec_tokens().all().len(), program_rule(kinds(self.spec_tokens().all()), self.spec_tokens().position() as int)),
    {
        let mut parser = self;
        let ghost start = parser.tokens.position();
        let expression = parser.parse_expression()?;
        match parser.tokens.peek_kind() {
            Some(
                Kind::LessThan
                | Kind::GreaterThan
                | Kind::LessThanOrEqualTo
                | Kind::GreaterThanOrEqualTo
                | Kind::Equal
                | Kind::NotEqual,
            ) => parser.parse_comparisons(expression, Ghost(start)),
            _ => parser.parse_expressions(expression, Ghost(start)),
        }
    }
}

/// A scanned token as the syntax tree records it.
pub open spec fn outcome_symbol(s: Seq<char>, outcome: (int, int, Scanned)) -> Symbol {
    let kind = outcome.2->Ok_0;
    (
        kind,
        if kind == Kind::Number || kind == Kind::Identifier {
            Some(s.subrange(outcome.0, outcome.1))
        } else {
            None
        },
    )
}

/// The tokens of a text as the syntax tree records them.
pub open spec fn text_symbols(s: Seq<char>) -> Seq<Symbol> {
    scan_outcomes(s, 0).map_values(|o: (int, int, Scanned)| outcome_symbol(s, o))
}

/// Whether scanning a text gives no lexical errors.
pub open spec fn scans_cleanly(s: Seq<char>) -> bool {
    forall|k: int| 0 <= k < scan_outcomes(s, 0).len() ==> (#[trigger] scan_outcomes(s, 0)[k]).2 is Ok
}

/// Blank space only separates tokens: a text whose blank space was replaced by other blank
/// space (as [`blank_space_replaced`] allows) scans into the same tokens, with the same
/// kinds, extents and texts, and so stands for the same symbols and scans cleanly exactly
/// when the first text does.
pub proof fn lemma_blank_space_is_insignificant(s: Seq<char>, t: Seq<char>)
    requires
        blank_space_replaced(s, t),
    ensures
        scan_outcomes(s, 0) == scan_outcomes(t, 0),
        text_symbols(s) == text_symbols(t),
        scans_cleanly(s) == scans_cleanly(t),
{
    lemma_scan_outcomes_replaced(s, t, 0);
    let outcomes = scan_outcomes(s, 0);
    assert forall|k: int| 0 <= k < outcomes.len() implies outcome_symbol(s, outcomes[k])
        == outcome_symbol(t, outcomes[k]) by {
        assert(s.subrange(outcomes[k].0, outcomes[k].1) == t.subrange(outcomes[k].0, outcomes[k].1));
    }
    assert(text_symbols(s) =~= text_symbols(t));
}

/// A number followed by the end of the tokens or by a comparator is an expression of its
/// one token.
proof fn lemma_number_is_an_expression(k: Seq<Kind>, i: int)
    requires
        0 <= i < k.len(),
        k[i] == Kind::Number,
        i + 1 < k.len() ==> is_comparison_kind(k[i + 1]),
    ensures
        expression_rule(k, i) == Ok::<int, Option<int>>(i + 1),
{
    assert(primary_rule(k, i) == Ok::<int, Option<int>>(i + 1));
    assert(power_tail_rule(k, i + 1) == Ok::<int, Option<int>>(i + 1));
    assert(power_rule(k, i) == Ok::<int, Option<int>>(i + 1));
    assert(product_tail_rule(k, i + 1) == Ok::<int, Option<int>>(i + 1));
    assert(product_rule(k, i) == Ok::<int, Option<int>>(i + 1));
    assert(sum_tail_rule(k, i + 1) == Ok::<int, Option<int>>(i + 1));
    assert(sum_rule(k, i) == Ok::<int, Option<int>>(i + 1));
    assert(modulo_tail_rule(k, i + 1) == Ok::<int, Option<int>>(i + 1));
    assert(modulo_rule(k, i) == Ok::<int, Option<int>>(i + 1));
    assert(epsilon_rule(k, i) == Ok::<int, Option<int>>(i + 1));
}

/// Every comparator of the language starts a comparison: the token of each of the six
/// comparators is a comparison kind, every comparison kind is the token of a comparator, and
/// a number, a comparator and a number make a program of comparisons that reads all three
/// tokens.
pub proof fn lemma_every_comparator_starts_a_comparison(c: Comparator)
    ensures
        is_comparison_kind(comparator_kind(c)),
        forall|k: Kind| is_comparison_kind(k) ==> exists|d: Comparator| comparator_kind(d) == k,
        program_rule(seq![Kind::Number, comparator_kind(c), Kind::Number], 0) == Ok::<
            int,
            Option<int>,
        >(3),
        comparisons_rule(seq![Kind::Number, comparator_kind(c), Kind::Number], 1) == Ok::<
            int,
            Option<int>,
        >(3),
{
    assert forall|k: Kind| is_comparison_kind(k) implies exists|d: Comparator| comparator_kind(d) == k by {
        if k == Kind::LessThan {
            assert(comparator_kind(Comparator::LessThan) == k);
        } else if k == Kind::GreaterThan {
            assert(comparator_kind(Comparator::GreaterThan) == k);
        } else if k == Kind::LessThanOrEqualTo {
            assert(comparator_kind(Comparator::LessThanOrEqualTo) == k);
        } else if k == Kind::GreaterThanOrEqualTo {
            assert(comparator_kind(Comparator::GreaterThanOrEqualTo) == k);
        } else if k == Kind::Equal {
            assert(comparator_kind(Comparator::EqualTo) == k);
        } else {
            assert(comparator_kind(Comparator::NotEqualTo) == k);
        }
    }
    let k = seq![Kind::Number, comparator_kind(c), Kind::Number];
    lemma_number_is_an_expression(k, 0);
    lemma_number_is_an_expression(k, 2);
    assert(comparator_rule(k, 1) == Ok::<int, Option<int>>(2));
    assert(comparison_rule(k, 1) == Ok::<int, Option<int>>(3));
    assert(comparisons_tail_rule(k, 3) == Ok::<int, Option<int>>(3));
}

/// The kinds of a sequence of symbols.
pub open spec fn symbol_kinds(symbols: Seq<Symbol>) -> Seq<Kind> {
    symbols.map_values(|x: Symbol| x.0)
}

/// The result of parsing a text that scans cleanly, as the grammar gives it: a program
/// exactly where the text's tokens make one; [`SyntacticalError::Incomplete`] where they
/// end inside a rule; [`SyntacticalError::NoMatch`] with the first token that no rule accepts.
pub open spec fn text_follows(r: Result<Program, SyntacticalError>, s: Seq<char>) -> bool {
    match program_rule(symbol_kinds(text_symbols(s)), 0) {
        Ok(_) => r is Ok,
        Err(None) => r matches Err(SyntacticalError::Incomplete),
        Err(Some(n)) => r matches Err(SyntacticalError::NoMatch(t)) && 0 <= n < text_symbols(s).len()
            && token_symbol(t) == text_symbols(s)[n],
    }
}

impl Program {
    /// Scans and parses a text. The lexical errors of the text, where it has any, are the
    /// error; otherwise the text parses exactly where its tokens make a program (see
    /// [`text_follows`]), and the program stands for exactly the tokens of the text.
    pub fn parse_text(source: &str) -> (r: Result<Program, SyntacticalError>)
        requires
            can_walk(initial_position(), source@.len()),
        ensures
            !scans_cleanly(source@) <==> r matches Err(SyntacticalError::Lexical(_)),
            r matches Ok(p) ==> program_symbols(p) == text_symbols(source@),
            scans_cleanly(source@) ==> text_follows(r, source@),
    {
        let results = scan_all(source);
        let ghost outcomes = scan_outcomes(source@, 0);
        let ghost all = results@;
        assert forall|k: int| 0 <= k < all.len() implies (all[k] is Ok <==> outcomes[k].2 is Ok) by {
            assert(scanned_as(all[k], source@, outcomes[k].0, outcomes[k].1, outcomes[k].2));
        }
        let tokens = match Tokens::try_from(results) {
            Ok(tokens) => tokens,
            Err(e) => {
                proof {
                    let k = choose|k: int| 0 <= k < all.len() && !(all[k] is Ok);
                    assert(!(outcomes[k].2 is Ok));
                }
                return Err(e);
            },
        };
        proof {
            assert forall|k: int| 0 <= k < outcomes.len() implies (#[trigger] outcomes[k]).2 is Ok by {
                assert(all[k] is Ok);
            }
            assert forall|k: int| 0 <= k < tokens.all().len() implies #[trigger] token_symbol(tokens.all()[k])
                == outcome_symbol(source@, outcomes[k]) by {
                assert(scanned_as(all[k], source@, outcomes[k].0, outcomes[k].1, outcomes[k].2));
            }
            assert(read(tokens.all(), 0, tokens.all().len()) =~= text_symbols(source@));
            assert(tokens.all().subrange(0, tokens.all().len() as int) =~= tokens.all());
            assert(kinds(tokens.all()) =~= symbol_kinds(text_symbols(source@)));
        }
        Parser::new(tokens).parse()
    }
}

impl std::str::FromStr for Program {
    type Err = SyntacticalError;

    /// Scans and parses a text as [`Program::parse_text`] does. A text with too many
    /// characters for its locations to be counted is refused as incomplete.
    fn from_str(s: &str) -> (r: Result<Program, SyntacticalError>)
        ensures
            s@.len() >= (usize::MAX - 8) / 4 ==> r == Err::<Program, SyntacticalError>(
                SyntacticalError::Incomplete,
            ),
            s@.len() < (usize::MAX - 8) / 4 ==> (!scans_cleanly(s@) <==> r matches Err(
                SyntacticalError::Lexical(_),
            )),
            s@.len() < (usize::MAX - 8) / 4 ==> (r matches Ok(p) ==> program_symbols(p)
                == text_symbols(s@)),
            s@.len() < (usize::MAX - 8) / 4 && scans_cleanly(s@) ==> text_follows(r, s@),
    {
        let n = s.unicode_len();
        if n >= (usize::MAX - 8) / 4 {
            return Err(SyntacticalError::Incomplete);
        }
        Program::parse_text(s)
    }
}

} // verus!
