//! The abstract syntax tree.

use vstd::prelude::*;
use crate::list::List;
use crate::number::Real;
use crate::pos::Range;

verus! {

/// An expression and the stretch of source text that it was read from.
#[derive(Debug, PartialEq, Eq)]
pub struct Expression {
    pub range: Range,
    pub node: Node,
}

impl Expression {
    pub fn new(range: Range, node: Node) -> (expression: Expression)
        ensures
            expression == (Expression { range, node }),
    {
        Expression { range, node }
    }
}

/// A node of an expression tree.
#[derive(Debug, PartialEq, Eq)]
pub enum Node {
    /// The name of a variable.
    Identifier(String),
    /// A call: the name of the function, the positional arguments, and the
    /// named arguments. Of two named arguments of one name the first counts.
    Invocation(String, List<Expression>, List<(String, Expression)>),
    /// A number literal.
    Number(Real),
    /// A string literal.
    String(String),
    /// Output: the postfix operator `?`.
    Print(Box<Expression>),
    /// The prefix operator `-`.
    Minus(Box<Expression>),
    /// The reciprocal: the prefix operator `/`.
    Reciprocal(Box<Expression>),
    /// The prefix operator `!`.
    Not(Box<Expression>),
    Add(Box<Expression>, Box<Expression>),
    Sub(Box<Expression>, Box<Expression>),
    Mul(Box<Expression>, Box<Expression>),
    Div(Box<Expression>, Box<Expression>),
    Rem(Box<Expression>, Box<Expression>),
    Pow(Box<Expression>, Box<Expression>),
    LeftShift(Box<Expression>, Box<Expression>),
    RightShift(Box<Expression>, Box<Expression>),
    Less(Box<Expression>, Box<Expression>),
    Greater(Box<Expression>, Box<Expression>),
    Equal(Box<Expression>, Box<Expression>),
    NotEqual(Box<Expression>, Box<Expression>),
    And(Box<Expression>, Box<Expression>),
    Or(Box<Expression>, Box<Expression>),
    /// An expression in parentheses.
    Group(Box<Expression>),
}

/// A statement.
#[derive(Debug, PartialEq, Eq)]
pub enum Statement {
    /// An expression, or nothing, before a semicolon.
    Expression(Option<Expression>),
    /// An assignment to a variable that exists: the place of the name, the
    /// name, the right-hand side.
    Substitution(Range, String, Expression),
    /// The declaration of a new variable: the place of the name, the name,
    /// the right-hand side.
    Declaration(Range, String, Expression),
    /// The statements between braces.
    Block(List<Statement>),
    /// The condition, the statement run where it holds, and the one run
    /// where it does not.
    If(Expression, Box<Statement>, Option<Box<Statement>>),
    While(Expression, Box<Statement>),
    Break,
    Continue,
    /// A `return` with the place where it stands, and the value if there is
    /// one.
    Return(Range, Option<Expression>),
}

} // verus!
