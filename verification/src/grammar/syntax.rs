//! The syntax tree of a Tortuga program, and the sequence of tokens that each node of it
//! stands for.
use crate::compiler::token::Kind;
use crate::grammar::lexical;
use vstd::prelude::*;

verus! {

/// A program: expressions one after the other, or an expression followed by comparisons.
#[derive(Debug, PartialEq)]
pub enum Program {
    Expressions(Expressions),
    Comparisons(Comparisons),
}

/// One or more expressions.
#[derive(Debug, PartialEq)]
pub struct Expressions {
    pub head: Expression,
    pub tail: Vec<Expression>,
}

/// An expression compared with one or more others.
#[derive(Debug, PartialEq)]
pub struct Comparisons {
    pub lhs: Expression,
    pub head: Comparison,
    pub tail: Vec<Comparison>,
}

/// A comparator and the expression on its right.
#[derive(Debug, PartialEq)]
pub struct Comparison {
    pub comparator: Comparator,
    pub rhs: Expression,
}

/// The ways to compare two values.
#[derive(Clone, Copy, Debug, PartialEq, Eq, Structural)]
pub enum Comparator {
    LessThan,
    GreaterThan,
    LessThanOrEqualTo,
    GreaterThanOrEqualTo,
    EqualTo,
    NotEqualTo,
}

/// The ways to bound a value.
#[derive(Clone, Copy, Debug, PartialEq, Eq, Structural)]
pub enum Inequality {
    LessThan,
    GreaterThan,
    LessThanOrEqualTo,
    GreaterThanOrEqualTo,
}

/// An assignment of a block to a function, or arithmetic.
#[derive(Debug, PartialEq)]
pub enum Expression {
    Assignment(Box<Assignment>),
    Arithmetic(Arithmetic),
}

/// A value, up to a tolerance.
#[derive(Debug, PartialEq)]
pub struct Arithmetic {
    pub epsilon: Epsilon,
}

/// A value, and the tolerance after `~` where there is one.
#[derive(Debug, PartialEq)]
pub struct Epsilon {
    pub lhs: Modulo,
    pub rhs: Option<Modulo>,
}

/// Sums separated by `%`.
#[derive(Debug, PartialEq)]
pub struct Modulo {
    pub head: Sum,
    pub tail: Vec<Sum>,
}

/// Products added or subtracted.
#[derive(Debug, PartialEq)]
pub struct Sum {
    pub head: Product,
    pub tail: Vec<AddOrSubtract>,
}

#[derive(Debug, PartialEq)]
pub enum AddOrSubtract {
    Add(Product),
    Subtract(Product),
}

/// Powers multiplied or divided.
#[derive(Debug, PartialEq)]
pub struct Product {
    pub head: Power,
    pub tail: Vec<MultiplyOrDivide>,
}

#[derive(Debug, PartialEq)]
pub enum MultiplyOrDivide {
    Multiply(Power),
    Divide(Power),
}

/// Primaries separated by `^`.
#[derive(Debug, PartialEq)]
pub struct Power {
    pub head: Primary,
    pub tail: Vec<Primary>,
}

#[derive(Debug, PartialEq)]
pub enum Primary {
    Number(Number),
    Call(Call),
    Grouping(Grouping),
}

/// A number literal, negated where it follows `-`.
#[derive(Debug, PartialEq)]
pub struct Number {
    pub negative: bool,
    pub number: lexical::Number,
}

/// An identifier applied to zero or more lists of arguments.
#[derive(Debug, PartialEq)]
pub struct Call {
    pub identifier: lexical::Identifier,
    pub arguments: Vec<Arguments>,
}

/// One or more expressions in parentheses, separated by `,`.
#[derive(Debug, PartialEq)]
pub struct Arguments {
    pub head: Expression,
    pub tail: Vec<Expression>,
}

/// An expression in parentheses.
#[derive(Debug, PartialEq)]
pub struct Grouping {
    pub inner: Box<Expression>,
}

/// A function, `=`, then its block.
#[derive(Debug, PartialEq)]
pub struct Assignment {
    pub function: Function,
    pub block: Block,
}

/// A name with optional parameters.
#[derive(Debug, PartialEq)]
pub struct Function {
    pub name: Name,
    pub parameters: Option<Parameters>,
}

/// `_`, or `@` and an identifier.
#[derive(Debug, PartialEq)]
pub enum Name {
    Anonymous,
    Identified(lexical::Identifier),
}

/// One or more patterns in parentheses, separated by `,`.
#[derive(Debug, PartialEq)]
pub struct Parameters {
    pub head: Pattern,
    pub tail: Vec<Pattern>,
}

#[derive(Debug, PartialEq)]
pub enum Pattern {
    Function(Box<Function>),
    Refinement(Refinement),
    Bounds(Bounds),
}

/// A name compared with arithmetic.
#[derive(Debug, PartialEq)]
pub struct Refinement {
    pub name: Name,
    pub comparator: Comparator,
    pub constraint: Arithmetic,
}

/// A name between two bounds.
#[derive(Debug, PartialEq)]
pub struct Bounds {
    pub left: Bound,
    pub name: Name,
    pub right: Bound,
}

/// Arithmetic and an inequality: on the left of a name the arithmetic comes first, on the
/// right the inequality does.
#[derive(Debug, PartialEq)]
pub struct Bound {
    pub constraint: Arithmetic,
    pub inequality: Inequality,
}

/// One expression, or two or more in brackets.
#[derive(Debug, PartialEq)]
pub struct Block {
    pub head: Expression,
    pub tail: Vec<Expression>,
}

/// A token as the syntax tree records it: its kind, and its text where the tree keeps the
/// text (numbers and identifiers).
pub type Symbol = (Kind, Option<Seq<char>>);

/// A token whose text the tree does not keep.
pub open spec fn mark(kind: Kind) -> Seq<Symbol> {
    seq![(kind, None)]
}

pub open spec fn comparator_kind(comparator: Comparator) -> Kind {
    match comparator {
        Comparator::LessThan => Kind::LessThan,
        Comparator::GreaterThan => Kind::GreaterThan,
        Comparator::LessThanOrEqualTo => Kind::LessThanOrEqualTo,
        Comparator::GreaterThanOrEqualTo => Kind::GreaterThanOrEqualTo,
        Comparator::EqualTo => Kind::Equal,
        Comparator::NotEqualTo => Kind::NotEqual,
    }
}

pub open spec fn inequality_kind(inequality: Inequality) -> Kind {
    match inequality {
        Inequality::LessThan => Kind::LessThan,
        Inequality::GreaterThan => Kind::GreaterThan,
        Inequality::LessThanOrEqualTo => Kind::LessThanOrEqualTo,
        Inequality::GreaterThanOrEqualTo => Kind::GreaterThanOrEqualTo,
    }
}

pub open spec fn name_symbols(name: Name) -> Seq<Symbol> {
    match name {
        Name::Anonymous => mark(Kind::Underscore),
        Name::Identified(identifier) => mark(Kind::At) + seq![(Kind::Identifier, Some(identifier@))],
    }
}

pub open spec fn number_symbols(number: Number) -> Seq<Symbol> {
    (if number.negative {
        mark(Kind::Minus)
    } else {
        Seq::empty()
    }) + seq![(Kind::Number, Some(number.number@))]
}

/// The tokens of a program.
pub open spec fn program_symbols(program: Program) -> Seq<Symbol> {
    match program {
        Program::Expressions(e) => expression_symbols(e.head) + expression_list_symbols(
            e.tail@,
            None,
        ),
        Program::Comparisons(c) => expression_symbols(c.lhs) + comparison_symbols(c.head)
            + comparison_list_symbols(c.tail@),
    }
}

pub open spec fn comparison_symbols(comparison: Comparison) -> Seq<Symbol> {
    mark(comparator_kind(comparison.comparator)) + expression_symbols(comparison.rhs)
}

pub open spec fn comparison_list_symbols(comparisons: Seq<Comparison>) -> Seq<Symbol>
    decreases comparisons.len(),
{
    if comparisons.len() == 0 {
        Seq::empty()
    } else {
        comparison_list_symbols(comparisons.drop_last()) + comparison_symbols(comparisons.last())
    }
}

/// The tokens of expressions one after the other, each preceded by `separator` where there is
/// one.
pub open spec fn expression_list_symbols(
    expressions: Seq<Expression>,
    separator: Option<Kind>,
) -> Seq<Symbol>
    decreases expressions,
{
    if expressions.len() == 0 {
        Seq::empty()
    } else {
        expression_list_symbols(expressions.drop_last(), separator) + (match separator {
            Some(k) => mark(k),
            None => Seq::empty(),
        }) + expression_symbols(expressions.last())
    }
}

pub open spec fn expression_symbols(expression: Expression) -> Seq<Symbol>
    decreases expression,
{
    match expression {
        Expression::Assignment(a) => function_symbols(a.function) + mark(Kind::Equal)
            + block_symbols(a.block),
        Expression::Arithmetic(a) => arithmetic_symbols(a),
    }
}

pub open spec fn block_symbols(block: Block) -> Seq<Symbol>
    decreases block,
{
    if block.tail@.len() == 0 {
        expression_symbols(block.head)
    } else {
        mark(Kind::LeftBracket) + expression_symbols(block.head) + expression_list_symbols(
            block.tail@,
            None,
        ) + mark(Kind::RightBracket)
    }
}

pub open spec fn function_symbols(function: Function) -> Seq<Symbol>
    decreases function,
{
    name_symbols(function.name) + match function.parameters {
        Some(p) => parameters_symbols(p),
        None => Seq::empty(),
    }
}

pub open spec fn parameters_symbols(parameters: Parameters) -> Seq<Symbol>
    decreases parameters,
{
    mark(Kind::LeftParenthesis) + pattern_symbols(parameters.head) + pattern_list_symbols(
        parameters.tail@,
    ) + mark(Kind::RightParenthesis)
}

pub open spec fn pattern_list_symbols(patterns: Seq<Pattern>) -> Seq<Symbol>
    decreases patterns,
{
    if patterns.len() == 0 {
        Seq::empty()
    } else {
        pattern_list_symbols(patterns.drop_last()) + mark(Kind::Comma) + pattern_symbols(
            patterns.last(),
        )
    }
}

pub open spec fn pattern_symbols(pattern: Pattern) -> Seq<Symbol>
    decreases pattern,
{
    match pattern {
        Pattern::Function(f) => function_symbols(*f),
        Pattern::Refinement(r) => name_symbols(r.name) + mark(comparator_kind(r.comparator))
            + arithmetic_symbols(r.constraint),
        Pattern::Bounds(b) => arithmetic_symbols(b.left.constraint) + mark(
            inequality_kind(b.left.inequality),
        ) + name_symbols(b.name) + mark(inequality_kind(b.right.inequality)) + arithmetic_symbols(
            b.right.constraint,
        ),
    }
}

pub open spec fn arithmetic_symbols(arithmetic: Arithmetic) -> Seq<Symbol>
    decreases arithmetic,
{
    modulo_symbols(arithmetic.epsilon.lhs) + match arithmetic.epsilon.rhs {
        Some(rhs) => mark(Kind::Tilde) + modulo_symbols(rhs),
        None => Seq::empty(),
    }
}

pub open spec fn modulo_symbols(modulo: Modulo) -> Seq<Symbol>
    decreases modulo,
{
    sum_symbols(modulo.head) + sum_list_symbols(modulo.tail@)
}

pub open spec fn sum_list_symbols(sums: Seq<Sum>) -> Seq<Symbol>
    decreases sums,
{
    if sums.len() == 0 {
        Seq::empty()
    } else {
        sum_list_symbols(sums.drop_last()) + mark(Kind::Percent) + sum_symbols(sums.last())
    }
}

pub open spec fn sum_symbols(sum: Sum) -> Seq<Symbol>
    decreases sum,
{
    product_symbols(sum.head) + addition_list_symbols(sum.tail@)
}

pub open spec fn addition_list_symbols(terms: Seq<AddOrSubtract>) -> Seq<Symbol>
    decreases terms,
{
    if terms.len() == 0 {
        Seq::empty()
    } else {
        addition_list_symbols(terms.drop_last()) + match terms.last() {
            AddOrSubtract::Add(p) => mark(Kind::Plus) + product_symbols(p),
            AddOrSubtract::Subtract(p) => mark(Kind::Minus) + product_symbols(p),
        }
    }
}

pub open spec fn product_symbols(product: Product) -> Seq<Symbol>
    decreases product,
{
    power_symbols(product.head) + multiplication_list_symbols(product.tail@)
}

pub open spec fn multiplication_list_symbols(factors: Seq<MultiplyOrDivide>) -> Seq<Symbol>
    decreases factors,
{
    if factors.len() == 0 {
        Seq::empty()
    } else {
        multiplication_list_symbols(factors.drop_last()) + match factors.last() {
            MultiplyOrDivide::Multiply(p) => mark(Kind::Star) + power_symbols(p),
            MultiplyOrDivide::Divide(p) => mark(Kind::Slash) + power_symbols(p),
        }
    }
}

pub open spec fn power_symbols(power: Power) -> Seq<Symbol>
    decreases power,
{
    primary_symbols(power.head) + primary_list_symbols(power.tail@)
}

pub open spec fn primary_list_symbols(primaries: Seq<Primary>) -> Seq<Symbol>
    decreases primaries,
{
    if primaries.len() == 0 {
        Seq::empty()
    } else {
        primary_list_symbols(primaries.drop_last()) + mark(Kind::Caret) + primary_symbols(
            primaries.last(),
        )
    }
}

pub open spec fn primary_symbols(primary: Primary) -> Seq<Symbol>
    decreases primary,
{
    match primary {
        Primary::Number(n) => number_symbols(n),
        Primary::Call(c) => seq![(Kind::Identifier, Some(c.identifier@))] + arguments_list_symbols(
            c.arguments@,
        ),
        Primary::Grouping(g) => mark(Kind::LeftParenthesis) + expression_symbols(*g.inner) + mark(
            Kind::RightParenthesis,
        ),
    }
}

pub open spec fn arguments_list_symbols(arguments: Seq<Arguments>) -> Seq<Symbol>
    decreases arguments,
{
    if arguments.len() == 0 {
        Seq::empty()
    } else {
        arguments_list_symbols(arguments.drop_last()) + arguments_symbols(arguments.last())
    }
}

pub open spec fn arguments_symbols(arguments: Arguments) -> Seq<Symbol>
    decreases arguments,
{
    mark(Kind::LeftParenthesis) + expression_symbols(arguments.head) + expression_list_symbols(
        arguments.tail@,
        Some(Kind::Comma),
    ) + mark(Kind::RightParenthesis)
}

} // verus!
