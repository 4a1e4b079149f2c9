//! Expressions as the parser reads them, and with their numbers read.

use vstd::prelude::*;
use crate::error::Error;
use crate::lexer::line_lexer::to_chars;
use crate::list::List;
use crate::pos::Range;

verus! {

/// The prefix operators.
#[derive(Debug, Clone, Copy, PartialEq, Eq, Structural)]
pub enum UnOp {
    Plus,
    Minus,
    Recip,
    LogicalNot,
    BitNot,
}

/// The operators between two operands.
#[derive(Debug, Clone, Copy, PartialEq, Eq, Structural)]
pub enum BinOp {
    Add,
    Sub,
    Mul,
    Div,
    Rem,
    LeftShift,
    RightShift,
    ForwardShift,
    BackwardShift,
    Equal,
    NotEqual,
    Less,
    Greater,
    LessEqual,
    GreaterEqual,
    LogicalAnd,
    LogicalOr,
    BitAnd,
    BitOr,
    BitXor,
    Assign,
    AddAssign,
    SubAssign,
    MulAssign,
    DivAssign,
    RemAssign,
    BitAndAssign,
    BitOrAssign,
    BitXorAssign,
    LeftShiftAssign,
    RightShiftAssign,
    ForwardShiftAssign,
    BackwardShiftAssign,
}

/// An operator and its place in the source.
pub type PBinOp = (Range, BinOp);

/// An operator and its place in the source.
pub type PUnOp = (Range, UnOp);

/// An expression and its place in the source.
pub type PPreExpr = (Range, PreExpr);

/// An expression and its place in the source.
pub type PExpr = (Range, Expr);

/// An expression as the parser reads it: a number is the text of its
/// literal.
#[derive(Debug, PartialEq, Eq)]
pub enum PreExpr {
    Identifier(String),
    BinInt(String),
    OctInt(String),
    DecInt(String),
    HexInt(String),
    Float(String),
    String(String),
    UnOp(PUnOp, Box<PPreExpr>),
    BinOp(PBinOp, Box<PPreExpr>, Box<PPreExpr>),
    Group(Box<PPreExpr>),
    Call(Box<PPreExpr>, List<PPreExpr>),
}

/// An expression with its integers read. A literal with a fraction or an
/// exponent stays as it is written.
#[derive(Debug, PartialEq, Eq)]
pub enum Expr {
    Identifier(String),
    Integer(i32),
    Float(String),
    String(String),
    UnOp(PUnOp, Box<PExpr>),
    BinOp(PBinOp, Box<PExpr>, Box<PExpr>),
    Group(Box<PExpr>),
    Call(Box<PExpr>, List<PExpr>),
}

/// The value of a digit: the letters go on behind the nine, in either
/// case.
pub open spec fn digit_value(c: char) -> Option<int> {
    if '0' <= c <= '9' {
        Some(c as int - '0' as int)
    } else if 'a' <= c <= 'z' {
        Some(c as int - 'a' as int + 10)
    } else if 'A' <= c <= 'Z' {
        Some(c as int - 'A' as int + 10)
    } else {
        None
    }
}

/// The number that digits name in a base, where each of them is a digit of
/// that base. No digits name zero.
pub open spec fn digits_value(text: Seq<char>, radix: int) -> Option<int>
    decreases text.len(),
{
    if text.len() == 0 {
        Some(0)
    } else {
        match (digits_value(text.drop_last(), radix), digit_value(text.last())) {
            (Some(front), Some(last)) => if last < radix {
                Some(front * radix + last)
            } else {
                None
            },
            _ => None,
        }
    }
}

/// The 32-bit integer that the digits of a literal name in a base, with a
/// minus sign before them or without, where there is such an integer:
/// there is at least one digit, each is a digit of the base, and the
/// number fits.
pub open spec fn integer(text: Seq<char>, radix: int, negative: bool) -> Option<i32> {
    if text.len() == 0 {
        None
    } else {
        match digits_value(text, radix) {
            None => None,
            Some(value) => {
                let signed = if negative {
                    -value
                } else {
                    value
                };
                if i32::MIN <= signed <= i32::MAX {
                    Some(signed as i32)
                } else {
                    None
                }
            },
        }
    }
}

/// Digits name no negative number, and more digits no smaller one.
pub proof fn digits_value_grows(text: Seq<char>, radix: int, n: int)
    requires
        0 <= n <= text.len(),
        radix >= 1,
    ensures
        match digits_value(text, radix) {
            Some(value) => digits_value(text.take(n), radix) is Some && 0 <= digits_value(
                text.take(n),
                radix,
            )->0 <= value,
            None => true,
        },
    decreases text.len(),
{
    if n == text.len() {
        assert(text.take(n) =~= text);
        if text.len() > 0 {
            digits_value_grows(text.drop_last(), radix, n - 1);
            assert(text.drop_last().take(n - 1) =~= text.drop_last());
            if let Some(value) = digits_value(text, radix) {
                let front = digits_value(text.drop_last(), radix)->0;
                assert(front * radix >= 0) by (nonlinear_arith)
                    requires
                        front >= 0,
                        radix >= 1,
                ;
            }
        }
    } else {
        digits_value_grows(text.drop_last(), radix, n);
        assert(text.drop_last().take(n) =~= text.take(n));
        if let Some(value) = digits_value(text, radix) {
            let front = digits_value(text.drop_last(), radix)->0;
            assert(front * radix >= front) by (nonlinear_arith)
                requires
                    front >= 0,
                    radix >= 1,
            ;
        }
    }
}

fn value_of_digit(c: char) -> (value: Option<u8>)
    ensures
        match value {
            Some(value) => digit_value(c) == Some(value as int),
            None => digit_value(c) is None,
        },
{
    if '0' <= c && c <= '9' {
        Some(((c as u32) - ('0' as u32)) as u8)
    } else if 'a' <= c && c <= 'z' {
        Some(((c as u32) - ('a' as u32) + 10) as u8)
    } else if 'A' <= c && c <= 'Z' {
        Some(((c as u32) - ('A' as u32) + 10) as u8)
    } else {
        None
    }
}

/// Reads the digits of an integer literal in a base from 2 to 36.
pub fn read_integer(text: &str, radix: u8, negative: bool) -> (value: Option<i32>)
    requires
        2 <= radix <= 36,
    ensures
        value == integer(text@, radix as int, negative),
{
    let chars = to_chars(text);
    let n: usize = chars.len();
    if n == 0 {
        return None;
    }
    let mut sum: u64 = 0;
    let mut i: usize = 0;
    assert(chars@.take(0) =~= Seq::<char>::empty());
    while i < n
        invariant
            n == chars@.len(),
            chars@ == text@,
            2 <= radix <= 36,
            i <= n,
            digits_value(chars@.take(i as int), radix as int) == Some(sum as int),
            sum <= 0x8000_0000,
        decreases n - i,
    {
        proof {
            assert(chars@.take(i + 1).drop_last() =~= chars@.take(i as int));
            assert(chars@.take(i + 1).last() == chars@[i as int]);
            digits_value_grows(chars@, radix as int, i + 1);
            broken_digits_stay_broken(chars@, radix as int, i + 1);
        }
        let digit: u8 = match value_of_digit(chars[i]) {
            Some(digit) => digit,
            None => {
                return None;
            },
        };
        if digit >= radix {
            return None;
        }
        assert(sum * (radix as u64) <= 0x8000_0000 * 36) by (nonlinear_arith)
            requires
                sum <= 0x8000_0000,
                radix <= 36,
        ;
        let next: u64 = sum * (radix as u64) + (digit as u64);
        if next > 0x8000_0000 {
            return None;
        }
        sum = next;
        i += 1;
    }
    assert(chars@.take(n as int) =~= chars@);
    if negative {
        if sum == 0x8000_0000 {
            Some(i32::MIN)
        } else {
            Some(-(sum as i32))
        }
    } else if sum == 0x8000_0000 {
        None
    } else {
        Some(sum as i32)
    }
}

/// Digits that name no number name none with more digits behind them.
pub proof fn broken_digits_stay_broken(text: Seq<char>, radix: int, n: int)
    requires
        0 <= n <= text.len(),
    ensures
        digits_value(text.take(n), radix) is None ==> digits_value(text, radix) is None,
    decreases text.len(),
{
    if n == text.len() {
        assert(text.take(n) =~= text);
    } else {
        broken_digits_stay_broken(text.drop_last(), radix, n);
        assert(text.drop_last().take(n) =~= text.take(n));
    }
}

/// The integer of a literal, or the error of a literal that names none.
pub open spec fn literal(text: Seq<char>, radix: int, negative: bool, range: Range) -> Result<
    Expr,
    Error,
> {
    match integer(text, radix, negative) {
        Some(value) => Ok(Expr::Integer(value)),
        None => Err(Error::InvalidNumericLiteral(range)),
    }
}

/// The base of an integer literal.
pub open spec fn radix_of(expression: PreExpr) -> Option<int> {
    match expression {
        PreExpr::BinInt(_) => Some(2),
        PreExpr::OctInt(_) => Some(8),
        PreExpr::DecInt(_) => Some(10),
        PreExpr::HexInt(_) => Some(16),
        _ => None,
    }
}

/// The digits of an integer literal.
pub open spec fn digits_of(expression: PreExpr) -> Seq<char> {
    match expression {
        PreExpr::BinInt(text) => text@,
        PreExpr::OctInt(text) => text@,
        PreExpr::DecInt(text) => text@,
        PreExpr::HexInt(text) => text@,
        _ => Seq::empty(),
    }
}

/// The expression with its integers read, or the error of the first
/// literal that names no 32-bit integer; `range` is the place of the
/// expression.
///
/// A minus sign before an integer literal belongs to the number, so that
/// the least integer can be written.
pub open spec fn converted(range: Range, expression: PreExpr) -> Result<Expr, Error>
    decreases expression,
{
    match expression {
        PreExpr::Identifier(name) => Ok(Expr::Identifier(name)),
        PreExpr::BinInt(text) => literal(text@, 2, false, range),
        PreExpr::OctInt(text) => literal(text@, 8, false, range),
        PreExpr::DecInt(text) => literal(text@, 10, false, range),
        PreExpr::HexInt(text) => literal(text@, 16, false, range),
        PreExpr::Float(text) => Ok(Expr::Float(text)),
        PreExpr::String(text) => Ok(Expr::String(text)),
        PreExpr::UnOp(op, operand) => if op.1 == UnOp::Minus && radix_of(operand.1) is Some {
            literal(digits_of(operand.1), radix_of(operand.1)->0, true, range)
        } else {
            match converted(operand.0, operand.1) {
                Err(error) => Err(error),
                Ok(inner) => Ok(Expr::UnOp(op, Box::new((operand.0, inner)))),
            }
        },
        PreExpr::BinOp(op, left, right) => match converted(left.0, left.1) {
            Err(error) => Err(error),
            Ok(first) => match converted(right.0, right.1) {
                Err(error) => Err(error),
                Ok(second) => Ok(
                    Expr::BinOp(op, Box::new((left.0, first)), Box::new((right.0, second))),
                ),
            },
        },
        PreExpr::Group(inner) => match converted(inner.0, inner.1) {
            Err(error) => Err(error),
            Ok(expression) => Ok(Expr::Group(Box::new((inner.0, expression)))),
        },
        PreExpr::Call(callee, arguments) => match converted(callee.0, callee.1) {
            Err(error) => Err(error),
            Ok(function) => match converted_all(arguments) {
                Err(error) => Err(error),
                Ok(arguments) => Ok(Expr::Call(Box::new((callee.0, function)), arguments)),
            },
        },
    }
}

/// The expressions of a list with their integers read, or the first error.
pub open spec fn converted_all(expressions: List<PPreExpr>) -> Result<List<PExpr>, Error>
    decreases expressions,
{
    match expressions {
        List::Nil => Ok(List::Nil),
        List::Cons(head, tail) => match converted(head.0, head.1) {
            Err(error) => Err(error),
            Ok(first) => match converted_all(*tail) {
                Err(error) => Err(error),
                Ok(rest) => Ok(List::Cons(Box::new((head.0, first)), Box::new(rest))),
            },
        },
    }
}

fn read_literal(text: &str, radix: u8, negative: bool, range: Range) -> (result: Result<
    Expr,
    Error,
>)
    requires
        2 <= radix <= 36,
    ensures
        result == literal(text@, radix as int, negative, range),
{
    match read_integer(text, radix, negative) {
        Some(value) => Ok(Expr::Integer(value)),
        None => Err(Error::InvalidNumericLiteral(range)),
    }
}

/// Reads the integers of the expressions of a list.
pub fn convert_all(expressions: List<PPreExpr>) -> (result: Result<List<PExpr>, Error>)
    ensures
        result == converted_all(expressions),
    decreases expressions,
{
    match expressions {
        List::Nil => Ok(List::Nil),
        List::Cons(head, tail) => {
            let (range, expression) = *head;
            let first = match Expr::from(range, expression) {
                Ok(first) => first,
                Err(error) => {
                    return Err(error);
                },
            };
            match convert_all(*tail) {
                Err(error) => Err(error),
                Ok(rest) => Ok(List::Cons(Box::new((range, first)), Box::new(rest))),
            }
        },
    }
}

impl Expr {
    /// Reads the integers of an expression; `range` is the place of the
    /// expression, which the error of a literal at its top carries.
    pub fn from(range: Range, pre_expr: PreExpr) -> (result: Result<Expr, Error>)
        ensures
            result == converted(range, pre_expr),
        decreases pre_expr,
    {
        match pre_expr {
            PreExpr::Identifier(name) => Ok(Expr::Identifier(name)),
            PreExpr::BinInt(text) => read_literal(text.as_str(), 2, false, range),
            PreExpr::OctInt(text) => read_literal(text.as_str(), 8, false, range),
            PreExpr::DecInt(text) => read_literal(text.as_str(), 10, false, range),
            PreExpr::HexInt(text) => read_literal(text.as_str(), 16, false, range),
            PreExpr::Float(text) => Ok(Expr::Float(text)),
            PreExpr::String(text) => Ok(Expr::String(text)),
            PreExpr::UnOp(op, operand) => {
                let (place, inner) = *operand;
                if matches!(op.1, UnOp::Minus) {
                    match &inner {
                        PreExpr::BinInt(text) => {
                            return read_literal(text.as_str(), 2, true, range);
                        },
                        PreExpr::OctInt(text) => {
                            return read_literal(text.as_str(), 8, true, range);
                        },
                        PreExpr::DecInt(text) => {
                            return read_literal(text.as_str(), 10, true, range);
                        },
                        PreExpr::HexInt(text) => {
                            return read_literal(text.as_str(), 16, true, range);
                        },
                        _ => {},
                    }
                }
                match Expr::from(place, inner) {
                    Err(error) => Err(error),
                    Ok(inner) => Ok(Expr::UnOp(op, Box::new((place, inner)))),
                }
            },
            PreExpr::BinOp(op, left, right) => {
                let (left_place, left) = *left;
                let (right_place, right) = *right;
                let first = match Expr::from(left_place, left) {
                    Ok(first) => first,
                    Err(error) => {
                        return Err(error);
                    },
                };
                match Expr::from(right_place, right) {
                    Err(error) => Err(error),
                    Ok(second) => Ok(
                        Expr::BinOp(
                            op,
                            Box::new((left_place, first)),
                            Box::new((right_place, second)),
                        ),
                    ),
                }
            },
            PreExpr::Group(inner) => {
                let (place, inner) = *inner;
                match Expr::from(place, inner) {
                    Err(error) => Err(error),
                    Ok(expression) => Ok(Expr::Group(Box::new((place, expression)))),
                }
            },
            PreExpr::Call(callee, arguments) => {
                let (place, callee) = *callee;
                let function = match Expr::from(place, callee) {
                    Ok(function) => function,
                    Err(error) => {
                        return Err(error);
                    },
                };
                match convert_all(arguments) {
                    Err(error) => Err(error),
                    Ok(arguments) => Ok(Expr::Call(Box::new((place, function)), arguments)),
                }
            },
        }
    }
}

} // verus!
