//! What can go wrong before a program runs.

use vstd::prelude::*;
use crate::pos::{Range, Start};
use crate::types::Type;

verus! {

/// An error found while reading or compiling source text. Each carries the
/// places in the source that it is about.
#[derive(Debug, PartialEq, Eq)]
pub enum Error {
    /// A character that starts no token.
    UnexpectedCharacter(Start),
    /// A number that breaks off where digits have to follow.
    InvalidNumericLiteral(Range),
    /// The input ended inside block comments; the places where the comments
    /// that are still open began, outermost first.
    UnterminatedComment(Vec<Start>),
    /// A line ended behind a backslash, or the input inside a string literal;
    /// the place where the literal began.
    UnterminatedStringLiteral(Start),
    UnexpectedEOFAfterPrefixOperator(Range),
    /// The operator, then the token that cannot follow it.
    UnexpectedTokenAfterPrefixOperator(Range, Range),
    UnexpectedEOFAfterBinaryOperator(Range),
    /// The operator, then the token that cannot follow it.
    UnexpectedTokenAfterBinaryOperator(Range, Range),
    /// The opening parenthesis that is never closed.
    NoClosingParenthesis(Range),
    /// The opening parenthesis, then the token found in place of the closing
    /// one.
    UnexpectedTokenInParenthesis(Range, Range),
    /// The opening and the closing parenthesis with nothing between them.
    EmptyParenthesis(Range, Range),
    NoExpressionBeforeComma(Range),
    /// A sentence is not closed by a semicolon; the token found in its place,
    /// if the input did not end there.
    MissingSemicolon(Option<Range>),
    UndefinedVariable(String, Range),
    UndefinedFunction(String, Range),
    /// The call, the number of arguments that the function takes, and the
    /// number that the call gives.
    WrongNumberOfArguments(Range, usize, usize),
    /// A named argument that the function does not have.
    UnusedNamedArgument(String, Range),
    /// The argument and its type.
    TypeMismatchArgument(Range, Type),
    /// The operand and its type.
    TypeMismatchUnary(Range, Type),
    /// Both operands, each with its type.
    TypeMismatchBinary(Range, Type, Range, Type),
    /// The condition and its type.
    TypeMismatchCond(Range, Type),
    /// A declaration whose right-hand side has no value.
    VoidRHS(Range),
    /// A `return` that stands in no function body.
    ReturnOutsideFunction(Range),
}

} // verus!
