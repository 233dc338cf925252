//! The syntax tree of arithmetic and comparison expressions in the Tortuga grammar.
pub mod lexical;
pub mod syntax;

use crate::compiler::number::Number;
use vstd::prelude::*;

verus! {

/// A list of zero or more expressions in the tortuga grammar.
#[derive(Debug, PartialEq)]
pub struct Program {
    expressions: Vec<Expression>,
}

impl Program {
    /// Creates a new instance of a program.
    pub fn new(expressions: Vec<Expression>) -> (r: Program)
        ensures
            r.spec_expressions() == expressions@,
    {
        Program { expressions }
    }

    pub closed spec fn spec_expressions(&self) -> Seq<Expression> {
        self.expressions@
    }

    /// The expressions of this program, in order.
    pub fn expressions(&self) -> (r: &Vec<Expression>)
        ensures
            r@ == self.spec_expressions(),
    {
        &self.expressions
    }
}

/// An expression in the tortuga grammar.
#[derive(Debug, PartialEq)]
pub enum Expression {
    Grouping(Grouping),
    Number(Number),
    BinaryOperation(BinaryOperation),
    ComparisonOperation(ComparisonOperation),
}

/// Groups an expression to change the order of precedence.
#[derive(Debug, PartialEq)]
pub struct Grouping {
    pub expression: Box<Expression>,
}

impl Grouping {
    pub fn new(expression: Expression) -> (r: Grouping)
        ensures
            *r.expression == expression,
    {
        Grouping { expression: Box::new(expression) }
    }

    /// The inner expression of this grouping
    pub fn inner(&self) -> (r: &Expression)
        ensures
            *r == *self.expression,
    {
        &self.expression
    }
}

/// An operator that takes 2 arguments.
#[derive(Debug, PartialEq)]
pub struct BinaryOperation {
    pub left: Box<Expression>,
    pub operator: Operator,
    pub right: Box<Expression>,
}

impl BinaryOperation {
    pub fn new(left: Expression, operator: Operator, right: Expression) -> (r: BinaryOperation)
        ensures
            *r.left == left,
            r.operator == operator,
            *r.right == right,
    {
        BinaryOperation { left: Box::new(left), operator, right: Box::new(right) }
    }

    pub fn left(&self) -> (r: &Expression)
        ensures
            *r == *self.left,
    {
        &self.left
    }

    pub fn operator(&self) -> (r: Operator)
        ensures
            r == self.operator,
    {
        self.operator
    }

    pub fn right(&self) -> (r: &Expression)
        ensures
            *r == *self.right,
    {
        &self.right
    }
}

/// An arithmetic operator.
#[derive(Clone, Copy, Debug, Eq, PartialEq, Structural)]
pub enum Operator {
    Exponent,
    Multiply,
    Divide,
    Add,
    Subtract,
}

pub open spec fn operator_symbol(operator: Operator) -> &'static str {
    match operator {
        Operator::Exponent => "^",
        Operator::Multiply => "*",
        Operator::Divide => "/",
        Operator::Add => "+",
        Operator::Subtract => "-",
    }
}

impl Operator {
    /// How this operator is written.
    pub fn symbol(&self) -> (r: &'static str)
        ensures
            r == operator_symbol(*self),
    {
        match self {
            Operator::Exponent => "^",
            Operator::Multiply => "*",
            Operator::Divide => "/",
            Operator::Add => "+",
            Operator::Subtract => "-",
        }
    }
}

/// An operation that compares 2 arguments relative to each other.
#[derive(Debug, PartialEq)]
pub struct ComparisonOperation {
    pub left: Box<Expression>,
    pub comparator: ComparisonOperator,
    pub right: Box<Expression>,
}

impl ComparisonOperation {
    pub fn new(left: Expression, comparator: ComparisonOperator, right: Expression) -> (r:
        ComparisonOperation)
        ensures
            *r.left == left,
            r.comparator == comparator,
            *r.right == right,
    {
        ComparisonOperation { left: Box::new(left), comparator, right: Box::new(right) }
    }

    pub fn left(&self) -> (r: &Expression)
        ensures
            *r == *self.left,
    {
        &self.left
    }

    pub fn comparator(&self) -> (r: ComparisonOperator)
        ensures
            r == self.comparator,
    {
        self.comparator
    }

    pub fn right(&self) -> (r: &Expression)
        ensures
            *r == *self.right,
    {
        &self.right
    }
}

/// An operator to compare two items to each other.
#[derive(Clone, Copy, Debug, Eq, PartialEq, Structural)]
pub enum ComparisonOperator {
    LessThan,
    LessThanOrEqualTo,
    GreaterThan,
    GreaterThanOrEqualTo,
    EqualTo,
    NotEqualTo,
    Comparable,
}

pub open spec fn comparison_symbol(comparator: ComparisonOperator) -> &'static str {
    match comparator {
        ComparisonOperator::LessThan => "<",
        ComparisonOperator::LessThanOrEqualTo => "<=",
        ComparisonOperator::GreaterThan => ">",
        ComparisonOperator::GreaterThanOrEqualTo => ">=",
        ComparisonOperator::EqualTo => "=",
        ComparisonOperator::NotEqualTo => "<>",
        ComparisonOperator::Comparable => "<=>",
    }
}

impl ComparisonOperator {
    /// How this comparator is written.
    pub fn symbol(&self) -> (r: &'static str)
        ensures
            r == comparison_symbol(*self),
    {
        match self {
            ComparisonOperator::LessThan => "<",
            ComparisonOperator::LessThanOrEqualTo => "<=",
            ComparisonOperator::GreaterThan => ">",
            ComparisonOperator::GreaterThanOrEqualTo => ">=",
            ComparisonOperator::EqualTo => "=",
            ComparisonOperator::NotEqualTo => "<>",
            ComparisonOperator::Comparable => "<=>",
        }
    }
}

} // verus!
