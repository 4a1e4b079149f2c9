//! The parser: from tokens to expressions and sentences.
//!
//! An expression is a chain of operands and operators between them. The
//! operators bind by their precedence, and those of one precedence from
//! left to right, only the assignments from right to left. An operand is a
//! name or a literal, a prefix operator before an operand, or an expression
//! in parentheses, and each may be called with arguments in parentheses any
//! number of times.

use vstd::prelude::*;
use crate::error::Error;
use crate::expr::{BinOp, PPreExpr, PreExpr, UnOp};
use crate::lexer::{
    at_end_of_input, ends_sentence, first, holds_end, plain, rest, taken, Item, Lexer,
};
use crate::list::List;
use crate::pos::Range;
use crate::sentence::{PPreSentence, PreSentence};
use crate::token::Token;

verus! {

/// How strongly an operator binds, from the weakest to the strongest. The
/// last level has no operators: there the operands are read.
#[derive(Debug, Clone, Copy, PartialEq, Eq, Structural)]
pub enum Precedence {
    Assign,
    TimeShift,
    LogicalOr,
    LogicalAnd,
    Comparison,
    BitOr,
    BitXor,
    BitAnd,
    BitShift,
    AddSub,
    MulDivRem,
    Max,
}

/// The side from which operators of one precedence are grouped.
#[derive(Debug, Clone, Copy, PartialEq, Eq, Structural)]
pub enum Assoc {
    LeftToRight,
    RightToLeft,
}

impl Precedence {
    /// The weakest precedence.
    pub open spec fn spec_first() -> Precedence {
        Precedence::Assign
    }

    /// The next stronger precedence.
    pub open spec fn spec_next(self) -> Option<Precedence> {
        match self {
            Precedence::Assign => Some(Precedence::TimeShift),
            Precedence::TimeShift => Some(Precedence::LogicalOr),
            Precedence::LogicalOr => Some(Precedence::LogicalAnd),
            Precedence::LogicalAnd => Some(Precedence::Comparison),
            Precedence::Comparison => Some(Precedence::BitOr),
            Precedence::BitOr => Some(Precedence::BitXor),
            Precedence::BitXor => Some(Precedence::BitAnd),
            Precedence::BitAnd => Some(Precedence::BitShift),
            Precedence::BitShift => Some(Precedence::AddSub),
            Precedence::AddSub => Some(Precedence::MulDivRem),
            Precedence::MulDivRem => Some(Precedence::Max),
            Precedence::Max => None,
        }
    }

    /// The number of stronger precedences.
    pub open spec fn rank(self) -> nat {
        match self {
            Precedence::Assign => 11,
            Precedence::TimeShift => 10,
            Precedence::LogicalOr => 9,
            Precedence::LogicalAnd => 8,
            Precedence::Comparison => 7,
            Precedence::BitOr => 6,
            Precedence::BitXor => 5,
            Precedence::BitAnd => 4,
            Precedence::BitShift => 3,
            Precedence::AddSub => 2,
            Precedence::MulDivRem => 1,
            Precedence::Max => 0,
        }
    }

    /// The side from which operators of the precedence are grouped.
    pub open spec fn spec_assoc(self) -> Assoc {
        match self {
            Precedence::Assign => Assoc::RightToLeft,
            _ => Assoc::LeftToRight,
        }
    }

    /// The precedence at which the operands of operators of this one are
    /// read behind the operator.
    pub open spec fn right_side(self) -> Precedence {
        match self.spec_assoc() {
            Assoc::RightToLeft => self,
            Assoc::LeftToRight => match self.spec_next() {
                Some(next) => next,
                None => self,
            },
        }
    }

    /// The weakest precedence.
    pub fn first() -> (precedence: Precedence)
        ensures
            precedence == Precedence::spec_first(),
    {
        Precedence::Assign
    }

    /// The next stronger precedence.
    pub fn next(&self) -> (next: Option<Precedence>)
        ensures
            next == self.spec_next(),
            next matches Some(stronger) ==> stronger.rank() + 1 == self.rank(),
    {
        match self {
            Precedence::Assign => Some(Precedence::TimeShift),
            Precedence::TimeShift => Some(Precedence::LogicalOr),
            Precedence::LogicalOr => Some(Precedence::LogicalAnd),
            Precedence::LogicalAnd => Some(Precedence::Comparison),
            Precedence::Comparison => Some(Precedence::BitOr),
            Precedence::BitOr => Some(Precedence::BitXor),
            Precedence::BitXor => Some(Precedence::BitAnd),
            Precedence::BitAnd => Some(Precedence::BitShift),
            Precedence::BitShift => Some(Precedence::AddSub),
            Precedence::AddSub => Some(Precedence::MulDivRem),
            Precedence::MulDivRem => Some(Precedence::Max),
            Precedence::Max => None,
        }
    }

    /// The side from which operators of the precedence are grouped.
    pub fn assoc(&self) -> (assoc: Assoc)
        ensures
            assoc == self.spec_assoc(),
    {
        match self {
            Precedence::Assign => Assoc::RightToLeft,
            _ => Assoc::LeftToRight,
        }
    }
}

impl BinOp {
    /// How strongly the operator binds.
    pub open spec fn spec_precedence(self) -> Precedence {
        match self {
            BinOp::Mul | BinOp::Div | BinOp::Rem => Precedence::MulDivRem,
            BinOp::Add | BinOp::Sub => Precedence::AddSub,
            BinOp::LeftShift | BinOp::RightShift => Precedence::BitShift,
            BinOp::BitAnd => Precedence::BitAnd,
            BinOp::BitXor => Precedence::BitXor,
            BinOp::BitOr => Precedence::BitOr,
            BinOp::Equal
            | BinOp::NotEqual
            | BinOp::Less
            | BinOp::Greater
            | BinOp::LessEqual
            | BinOp::GreaterEqual => Precedence::Comparison,
            BinOp::LogicalAnd => Precedence::LogicalAnd,
            BinOp::LogicalOr => Precedence::LogicalOr,
            BinOp::ForwardShift | BinOp::BackwardShift => Precedence::TimeShift,
            _ => Precedence::Assign,
        }
    }

    /// How strongly the operator binds.
    pub fn precedence(&self) -> (precedence: Precedence)
        ensures
            precedence == self.spec_precedence(),
            precedence != Precedence::Max,
    {
        match self {
            BinOp::Mul | BinOp::Div | BinOp::Rem => Precedence::MulDivRem,
            BinOp::Add | BinOp::Sub => Precedence::AddSub,
            BinOp::LeftShift | BinOp::RightShift => Precedence::BitShift,
            BinOp::BitAnd => Precedence::BitAnd,
            BinOp::BitXor => Precedence::BitXor,
            BinOp::BitOr => Precedence::BitOr,
            BinOp::Equal
            | BinOp::NotEqual
            | BinOp::Less
            | BinOp::Greater
            | BinOp::LessEqual
            | BinOp::GreaterEqual => Precedence::Comparison,
            BinOp::LogicalAnd => Precedence::LogicalAnd,
            BinOp::LogicalOr => Precedence::LogicalOr,
            BinOp::ForwardShift | BinOp::BackwardShift => Precedence::TimeShift,
            _ => Precedence::Assign,
        }
    }
}

/// The operator between two operands that a token is.
pub open spec fn binary_operator(token: Token) -> Option<BinOp> {
    match token {
        Token::Plus => Some(BinOp::Add),
        Token::PlusEqual => Some(BinOp::AddAssign),
        Token::Hyphen => Some(BinOp::Sub),
        Token::HyphenEqual => Some(BinOp::SubAssign),
        Token::Asterisk => Some(BinOp::Mul),
        Token::AsteriskEqual => Some(BinOp::MulAssign),
        Token::Slash => Some(BinOp::Div),
        Token::SlashEqual => Some(BinOp::DivAssign),
        Token::Percent => Some(BinOp::Rem),
        Token::PercentEqual => Some(BinOp::RemAssign),
        Token::Equal => Some(BinOp::Assign),
        Token::DoubleEqual => Some(BinOp::Equal),
        Token::ExclamationEqual => Some(BinOp::NotEqual),
        Token::Less => Some(BinOp::Less),
        Token::Greater => Some(BinOp::Greater),
        Token::LessEqual => Some(BinOp::LessEqual),
        Token::GreaterEqual => Some(BinOp::GreaterEqual),
        Token::DoubleLess => Some(BinOp::LeftShift),
        Token::DoubleLessEqual => Some(BinOp::LeftShiftAssign),
        Token::DoubleGreater => Some(BinOp::RightShift),
        Token::DoubleGreaterEqual => Some(BinOp::RightShiftAssign),
        Token::TripleLess => Some(BinOp::BackwardShift),
        Token::TripleLessEqual => Some(BinOp::BackwardShiftAssign),
        Token::TripleGreater => Some(BinOp::ForwardShift),
        Token::TripleGreaterEqual => Some(BinOp::ForwardShiftAssign),
        Token::Ampersand => Some(BinOp::BitAnd),
        Token::AmpersandEqual => Some(BinOp::BitAndAssign),
        Token::DoubleAmpersand => Some(BinOp::LogicalAnd),
        Token::Bar => Some(BinOp::BitOr),
        Token::BarEqual => Some(BinOp::BitOrAssign),
        Token::DoubleBar => Some(BinOp::LogicalOr),
        Token::Circumflex => Some(BinOp::BitXor),
        Token::CircumflexEqual => Some(BinOp::BitXorAssign),
        _ => None,
    }
}

/// The operator of a precedence that a token is.
pub open spec fn operator_of(token: Token, precedence: Precedence) -> Option<BinOp> {
    match binary_operator(token) {
        Some(op) => if op.spec_precedence() == precedence {
            Some(op)
        } else {
            None
        },
        None => None,
    }
}

/// What an operand can start with.
pub enum Lead {
    /// A name or a literal, which is an operand by itself.
    Atom(PreExpr),
    /// A prefix operator.
    Prefix(UnOp),
    /// An opening parenthesis.
    Open,
}

/// What a token starts an operand with, if it can start one.
pub open spec fn lead(token: Token) -> Option<Lead> {
    match token {
        Token::Identifier(text) => Some(Lead::Atom(PreExpr::Identifier(text))),
        Token::BinInt(text) => Some(Lead::Atom(PreExpr::BinInt(text))),
        Token::OctInt(text) => Some(Lead::Atom(PreExpr::OctInt(text))),
        Token::DecInt(text) => Some(Lead::Atom(PreExpr::DecInt(text))),
        Token::HexInt(text) => Some(Lead::Atom(PreExpr::HexInt(text))),
        Token::Float(text) => Some(Lead::Atom(PreExpr::Float(text))),
        Token::String(text) => Some(Lead::Atom(PreExpr::String(text))),
        Token::Plus => Some(Lead::Prefix(UnOp::Plus)),
        Token::Hyphen => Some(Lead::Prefix(UnOp::Minus)),
        Token::Slash => Some(Lead::Prefix(UnOp::Recip)),
        Token::Exclamation => Some(Lead::Prefix(UnOp::LogicalNot)),
        Token::Tilde => Some(Lead::Prefix(UnOp::BitNot)),
        Token::OpeningParenthesis => Some(Lead::Open),
        _ => None,
    }
}

/// What parsing gives: what was read, or the error, and what is left of
/// the stream of tokens.
pub struct Parsed<T> {
    pub result: Result<T, Error>,
    pub rest: Seq<Item>,
}

/// The closing parenthesis that has to come next, for the parenthesis
/// opened at `open`: its place.
pub open spec fn closing(stream: Seq<Item>, open: Range) -> Parsed<Range> {
    Parsed {
        result: match taken(stream) {
            Err(error) => Err(error),
            Ok(None) => Err(Error::NoClosingParenthesis(open)),
            Ok(Some((place, Token::ClosingParenthesis))) => Ok(place),
            Ok(Some((place, _))) => Err(Error::UnexpectedTokenInParenthesis(open, place)),
        },
        rest: rest(stream),
    }
}

/// The error of an operand that is missing behind the operator at
/// `operator`, by what comes in its place.
pub open spec fn missing_operand(stream: Seq<Item>, operator: Range, prefix: bool) -> Error {
    match taken(stream) {
        Err(error) => error,
        Ok(Some((place, _))) => if prefix {
            Error::UnexpectedTokenAfterPrefixOperator(operator, place)
        } else {
            Error::UnexpectedTokenAfterBinaryOperator(operator, place)
        },
        Ok(None) => if prefix {
            Error::UnexpectedEOFAfterPrefixOperator(operator)
        } else {
            Error::UnexpectedEOFAfterBinaryOperator(operator)
        },
    }
}

/// An operand, if the stream starts with one.
pub open spec fn factor(stream: Seq<Item>) -> Parsed<Option<PPreExpr>>
    decreases stream.len(), 0nat,
{
    match first(stream) {
        None => Parsed { result: Ok(None), rest: stream },
        Some(Item::Failure(error)) => Parsed { result: Err(error), rest: rest(stream) },
        Some(Item::Token(token)) => match lead(token.1) {
            None => Parsed { result: Ok(None), rest: stream },
            Some(Lead::Atom(atom)) => calls(rest(stream), (token.0, atom)),
            Some(Lead::Prefix(op)) => {
                let operand = factor(rest(stream));
                match operand.result {
                    Err(error) => Parsed { result: Err(error), rest: operand.rest },
                    Ok(None) => Parsed {
                        result: Err(missing_operand(operand.rest, token.0, true)),
                        rest: rest(operand.rest),
                    },
                    Ok(Some(inner)) => if operand.rest.len() < stream.len() {
                        calls(
                            operand.rest,
                            (
                                token.0.spec_join(inner.0),
                                PreExpr::UnOp((token.0, op), Box::new(inner)),
                            ),
                        )
                    } else {
                        Parsed { result: Ok(None), rest: operand.rest }
                    },
                }
            },
            Some(Lead::Open) => {
                let inner = binary(rest(stream), Precedence::Assign);
                match inner.result {
                    Err(error) => Parsed { result: Err(error), rest: inner.rest },
                    Ok(inside) => {
                        let close = closing(inner.rest, token.0);
                        match (close.result, inside) {
                            (Err(error), _) => Parsed { result: Err(error), rest: close.rest },
                            (Ok(place), None) => Parsed {
                                result: Err(Error::EmptyParenthesis(token.0, place)),
                                rest: close.rest,
                            },
                            (Ok(place), Some(inside)) => if close.rest.len() < stream.len() {
                                calls(
                                    close.rest,
                                    (
                                        token.0.spec_join(place),
                                        PreExpr::Group(Box::new(inside)),
                                    ),
                                )
                            } else {
                                Parsed { result: Ok(None), rest: close.rest }
                            },
                        }
                    },
                }
            },
        },
    }
}

/// An operand with the calls behind it: each pair of parentheses with
/// arguments makes a call of what stands before it.
pub open spec fn calls(stream: Seq<Item>, callee: PPreExpr) -> Parsed<Option<PPreExpr>>
    decreases stream.len(), 0nat,
{
    match first(stream) {
        Some(Item::Failure(error)) => Parsed { result: Err(error), rest: rest(stream) },
        Some(Item::Token((open, Token::OpeningParenthesis))) => {
            let arguments = list(rest(stream));
            match arguments.result {
                Err(error) => Parsed { result: Err(error), rest: arguments.rest },
                Ok(given) => {
                    let close = closing(arguments.rest, open);
                    match close.result {
                        Err(error) => Parsed { result: Err(error), rest: close.rest },
                        Ok(place) => if close.rest.len() < stream.len() {
                            calls(
                                close.rest,
                                (
                                    callee.0.spec_join(place),
                                    PreExpr::Call(Box::new(callee), given),
                                ),
                            )
                        } else {
                            Parsed { result: Ok(None), rest: close.rest }
                        },
                    }
                },
            }
        },
        _ => Parsed { result: Ok(Some(callee)), rest: stream },
    }
}

/// The expressions of a list, with commas between them. A comma may stand
/// behind the last; none may stand without an expression before it.
pub open spec fn list(stream: Seq<Item>) -> Parsed<List<PPreExpr>>
    decreases stream.len(), 30nat,
{
    let element = binary(stream, Precedence::Assign);
    match element.result {
        Err(error) => Parsed { result: Err(error), rest: element.rest },
        Ok(found) => match first(element.rest) {
            Some(Item::Failure(error)) => Parsed { result: Err(error), rest: rest(element.rest) },
            Some(Item::Token((comma, Token::Comma))) => match found {
                None => Parsed {
                    result: Err(Error::NoExpressionBeforeComma(comma)),
                    rest: rest(element.rest),
                },
                Some(expression) => if rest(element.rest).len() < stream.len() {
                    let others = list(rest(element.rest));
                    Parsed {
                        result: match others.result {
                            Err(error) => Err(error),
                            Ok(others) => Ok(List::Cons(Box::new(expression), Box::new(others))),
                        },
                        rest: others.rest,
                    }
                } else {
                    Parsed { result: Ok(List::Nil), rest: element.rest }
                },
            },
            _ => Parsed {
                result: Ok(
                    match found {
                        Some(expression) => List::Cons(Box::new(expression), Box::new(List::Nil)),
                        None => List::Nil,
                    },
                ),
                rest: element.rest,
            },
        },
    }
}

/// An expression of operators of the given precedence and stronger ones,
/// if the stream starts with one.
pub open spec fn binary(stream: Seq<Item>, precedence: Precedence) -> Parsed<Option<PPreExpr>>
    decreases stream.len(), 2 + 2 * precedence.rank(),
{
    match precedence.spec_next() {
        None => factor(stream),
        Some(stronger) => {
            let left = binary(stream, stronger);
            match left.result {
                Ok(Some(operand)) => if left.rest.len() <= stream.len() {
                    chain(left.rest, precedence, operand)
                } else {
                    left
                },
                _ => left,
            }
        },
    }
}

/// The expression that starts with `left` and goes on with the operators
/// of the given precedence and their operands.
pub open spec fn chain(stream: Seq<Item>, precedence: Precedence, left: PPreExpr) -> Parsed<
    Option<PPreExpr>,
>
    decreases stream.len(), 1 + 2 * precedence.rank(),
{
    match first(stream) {
        Some(Item::Failure(error)) => Parsed { result: Err(error), rest: rest(stream) },
        Some(Item::Token(token)) => match operator_of(token.1, precedence) {
            None => Parsed { result: Ok(Some(left)), rest: stream },
            Some(op) => {
                let right = binary(rest(stream), precedence.right_side());
                match right.result {
                    Err(error) => Parsed { result: Err(error), rest: right.rest },
                    Ok(None) => Parsed {
                        result: Err(missing_operand(right.rest, token.0, false)),
                        rest: rest(right.rest),
                    },
                    Ok(Some(operand)) => {
                        let joined = (
                            left.0.spec_join(operand.0),
                            PreExpr::BinOp((token.0, op), Box::new(left), Box::new(operand)),
                        );
                        if precedence.spec_assoc() == Assoc::LeftToRight && right.rest.len()
                            < stream.len() {
                            chain(right.rest, precedence, joined)
                        } else {
                            Parsed { result: Ok(Some(joined)), rest: right.rest }
                        }
                    },
                }
            },
        },
        None => Parsed { result: Ok(Some(left)), rest: stream },
    }
}

/// An expression, if the stream starts with one.
pub open spec fn expression(stream: Seq<Item>) -> Parsed<Option<PPreExpr>> {
    binary(stream, Precedence::Assign)
}

/// A sentence: an expression, or nothing, and the semicolon behind it.
/// There is no sentence where the stream has ended.
pub open spec fn sentence(stream: Seq<Item>) -> Parsed<Option<PPreSentence>> {
    let inner = expression(stream);
    match inner.result {
        Err(error) => Parsed { result: Err(error), rest: inner.rest },
        Ok(found) => Parsed {
            result: match (taken(inner.rest), found) {
                (Err(error), _) => Err(error),
                (Ok(Some((semicolon, Token::Semicolon))), Some(inside)) => Ok(
                    Some((inside.0.spec_join(semicolon), PreSentence::Expr(found))),
                ),
                (Ok(Some((semicolon, Token::Semicolon))), None) => Ok(
                    Some((semicolon, PreSentence::Expr(found))),
                ),
                (Ok(Some((place, _))), _) => Err(Error::MissingSemicolon(Some(place))),
                (Ok(None), Some(_)) => Err(Error::MissingSemicolon(None)),
                (Ok(None), None) => Ok(None),
            },
            rest: rest(inner.rest),
        },
    }
}

/// Whether a stream can be read up to the end of a sentence: it holds a
/// semicolon or an error, and none of its errors says that the input ended
/// too early.
pub open spec fn readable(stream: Seq<Item>) -> bool {
    holds_end(stream) && plain(stream)
}

/// Whether reading went on without running out of input: what is left can
/// still be read up to the end of a sentence, or reading ended with an
/// error that is not one of the input ending too early.
pub open spec fn well_fed<T>(parsed: Parsed<T>) -> bool {
    match parsed.result {
        Ok(_) => readable(parsed.rest),
        Err(error) => !at_end_of_input(error),
    }
}

/// Whether reading a sentence ran out of input: it found nothing, or the
/// input ended too early.
pub open spec fn ran_out(result: Result<Option<PPreSentence>, Error>) -> bool {
    match result {
        Ok(None) => true,
        Ok(Some(_)) => false,
        Err(error) => at_end_of_input(error),
    }
}

/// A readable stream whose first item does not end a sentence is readable
/// without that item.
pub proof fn rest_is_readable(stream: Seq<Item>)
    requires
        readable(stream),
        stream.len() > 0,
        !ends_sentence(stream[0]),
    ensures
        readable(rest(stream)),
{
    let i = choose|i: int| 0 <= i < stream.len() && ends_sentence(#[trigger] stream[i]);
    assert(rest(stream)[i - 1] == stream[i]);
    assert forall|k: int| 0 <= k < rest(stream).len() implies match #[trigger] rest(stream)[k] {
        Item::Failure(error) => !at_end_of_input(error),
        Item::Token(_) => true,
    } by {
        assert(rest(stream)[k] == stream[k + 1]);
    }
}

/// The first item of a readable stream is there, and if it is an error,
/// it is not one of the input ending too early.
pub proof fn readable_has_first(stream: Seq<Item>)
    requires
        readable(stream),
    ensures
        stream.len() > 0,
        stream[0] matches Item::Failure(error) ==> !at_end_of_input(error),
{
}

proof fn closing_is_well_fed(stream: Seq<Item>, open: Range)
    requires
        readable(stream),
    ensures
        well_fed(closing(stream, open)),
{
    readable_has_first(stream);
    if !ends_sentence(stream[0]) {
        rest_is_readable(stream);
    }
}

proof fn missing_operand_is_no_end(stream: Seq<Item>, operator: Range, prefix: bool)
    requires
        readable(stream),
    ensures
        !at_end_of_input(missing_operand(stream, operator, prefix)),
{
    readable_has_first(stream);
}

proof fn factor_is_well_fed(stream: Seq<Item>)
    requires
        readable(stream),
    ensures
        well_fed(factor(stream)),
    decreases stream.len(), 0nat,
{
    readable_has_first(stream);
    if let Some(Item::Token(token)) = first(stream) {
        match lead(token.1) {
            None => {},
            Some(Lead::Atom(atom)) => {
                rest_is_readable(stream);
                calls_are_well_fed(rest(stream), (token.0, atom));
            },
            Some(Lead::Prefix(op)) => {
                rest_is_readable(stream);
                factor_is_well_fed(rest(stream));
                let operand = factor(rest(stream));
                match operand.result {
                    Err(_) => {},
                    Ok(None) => {
                        missing_operand_is_no_end(operand.rest, token.0, true);
                    },
                    Ok(Some(inner)) => {
                        if operand.rest.len() < stream.len() {
                            calls_are_well_fed(
                                operand.rest,
                                (
                                    token.0.spec_join(inner.0),
                                    PreExpr::UnOp((token.0, op), Box::new(inner)),
                                ),
                            );
                        }
                    },
                }
            },
            Some(Lead::Open) => {
                rest_is_readable(stream);
                binary_is_well_fed(rest(stream), Precedence::Assign);
                let inner = binary(rest(stream), Precedence::Assign);
                if let Ok(inside) = inner.result {
                    closing_is_well_fed(inner.rest, token.0);
                    let close = closing(inner.rest, token.0);
                    if let (Ok(place), Some(inside)) = (close.result, inside) {
                        if close.rest.len() < stream.len() {
                            calls_are_well_fed(
                                close.rest,
                                (token.0.spec_join(place), PreExpr::Group(Box::new(inside))),
                            );
                        }
                    }
                }
            },
        }
    }
}

proof fn calls_are_well_fed(stream: Seq<Item>, callee: PPreExpr)
    requires
        readable(stream),
    ensures
        well_fed(calls(stream, callee)),
    decreases stream.len(), 0nat,
{
    readable_has_first(stream);
    if let Some(Item::Token((open, Token::OpeningParenthesis))) = first(stream) {
        rest_is_readable(stream);
        list_is_well_fed(rest(stream));
        let arguments = list(rest(stream));
        if let Ok(given) = arguments.result {
            closing_is_well_fed(arguments.rest, open);
            let close = closing(arguments.rest, open);
            if let Ok(place) = close.result {
                if close.rest.len() < stream.len() {
                    calls_are_well_fed(
                        close.rest,
                        (callee.0.spec_join(place), PreExpr::Call(Box::new(callee), given)),
                    );
                }
            }
        }
    }
}

proof fn list_is_well_fed(stream: Seq<Item>)
    requires
        readable(stream),
    ensures
        well_fed(list(stream)),
    decreases stream.len(), 30nat,
{
    binary_is_well_fed(stream, Precedence::Assign);
    let element = binary(stream, Precedence::Assign);
    if let Ok(found) = element.result {
        readable_has_first(element.rest);
        if let Some(Item::Token((comma, Token::Comma))) = first(element.rest) {
            rest_is_readable(element.rest);
            if let Some(expression) = found {
                if rest(element.rest).len() < stream.len() {
                    list_is_well_fed(rest(element.rest));
                }
            }
        }
    }
}

proof fn binary_is_well_fed(stream: Seq<Item>, precedence: Precedence)
    requires
        readable(stream),
    ensures
        well_fed(binary(stream, precedence)),
    decreases stream.len(), 2 + 2 * precedence.rank(),
{
    match precedence.spec_next() {
        None => factor_is_well_fed(stream),
        Some(stronger) => {
            binary_is_well_fed(stream, stronger);
            let left = binary(stream, stronger);
            if let Ok(Some(operand)) = left.result {
                if left.rest.len() <= stream.len() {
                    chain_is_well_fed(left.rest, precedence, operand);
                }
            }
        },
    }
}

proof fn chain_is_well_fed(stream: Seq<Item>, precedence: Precedence, left: PPreExpr)
    requires
        readable(stream),
    ensures
        well_fed(chain(stream, precedence, left)),
    decreases stream.len(), 1 + 2 * precedence.rank(),
{
    readable_has_first(stream);
    if let Some(Item::Token(token)) = first(stream) {
        if let Some(op) = operator_of(token.1, precedence) {
            rest_is_readable(stream);
            binary_is_well_fed(rest(stream), precedence.right_side());
            let right = binary(rest(stream), precedence.right_side());
            match right.result {
                Err(_) => {},
                Ok(None) => {
                    missing_operand_is_no_end(right.rest, token.0, false);
                },
                Ok(Some(operand)) => {
                    let joined = (
                        left.0.spec_join(operand.0),
                        PreExpr::BinOp((token.0, op), Box::new(left), Box::new(operand)),
                    );
                    if precedence.spec_assoc() == Assoc::LeftToRight && right.rest.len()
                        < stream.len() {
                        chain_is_well_fed(right.rest, precedence, joined);
                    }
                },
            }
        }
    }
}

/// Reading a sentence does not run out of input where the stream holds a
/// semicolon or an error: it gives a sentence, or an error that is not one
/// of the input ending too early. So a sentence can be read from a lexer
/// as soon as the lexer is ready.
pub proof fn ready_is_enough(stream: Seq<Item>)
    requires
        readable(stream),
    ensures
        !ran_out(sentence(stream).result),
{
    binary_is_well_fed(stream, Precedence::Assign);
    let inner = expression(stream);
    if let Ok(found) = inner.result {
        readable_has_first(inner.rest);
    }
}

/// Tells what a token starts an operand with.
pub fn classify(token: &Token) -> (made: Option<Lead>)
    ensures
        made == lead(*token),
{
    match token {
        Token::Identifier(text) => Some(Lead::Atom(PreExpr::Identifier(text.clone()))),
        Token::BinInt(text) => Some(Lead::Atom(PreExpr::BinInt(text.clone()))),
        Token::OctInt(text) => Some(Lead::Atom(PreExpr::OctInt(text.clone()))),
        Token::DecInt(text) => Some(Lead::Atom(PreExpr::DecInt(text.clone()))),
        Token::HexInt(text) => Some(Lead::Atom(PreExpr::HexInt(text.clone()))),
        Token::Float(text) => Some(Lead::Atom(PreExpr::Float(text.clone()))),
        Token::String(text) => Some(Lead::Atom(PreExpr::String(text.clone()))),
        Token::Plus => Some(Lead::Prefix(UnOp::Plus)),
        Token::Hyphen => Some(Lead::Prefix(UnOp::Minus)),
        Token::Slash => Some(Lead::Prefix(UnOp::Recip)),
        Token::Exclamation => Some(Lead::Prefix(UnOp::LogicalNot)),
        Token::Tilde => Some(Lead::Prefix(UnOp::BitNot)),
        Token::OpeningParenthesis => Some(Lead::Open),
        _ => None,
    }
}

/// Tells which operator between two operands a token is.
pub fn as_binary_operator(token: &Token) -> (made: Option<BinOp>)
    ensures
        made == binary_operator(*token),
{
    match token {
        Token::Plus => Some(BinOp::Add),
        Token::PlusEqual => Some(BinOp::AddAssign),
        Token::Hyphen => Some(BinOp::Sub),
        Token::HyphenEqual => Some(BinOp::SubAssign),
        Token::Asterisk => Some(BinOp::Mul),
        Token::AsteriskEqual => Some(BinOp::MulAssign),
        Token::Slash => Some(BinOp::Div),
        Token::SlashEqual => Some(BinOp::DivAssign),
        Token::Percent => Some(BinOp::Rem),
        Token::PercentEqual => Some(BinOp::RemAssign),
        Token::Equal => Some(BinOp::Assign),
        Token::DoubleEqual => Some(BinOp::Equal),
        Token::ExclamationEqual => Some(BinOp::NotEqual),
        Token::Less => Some(BinOp::Less),
        Token::Greater => Some(BinOp::Greater),
        Token::LessEqual => Some(BinOp::LessEqual),
        Token::GreaterEqual => Some(BinOp::GreaterEqual),
        Token::DoubleLess => Some(BinOp::LeftShift),
        Token::DoubleLessEqual => Some(BinOp::LeftShiftAssign),
        Token::DoubleGreater => Some(BinOp::RightShift),
        Token::DoubleGreaterEqual => Some(BinOp::RightShiftAssign),
        Token::TripleLess => Some(BinOp::BackwardShift),
        Token::TripleLessEqual => Some(BinOp::BackwardShiftAssign),
        Token::TripleGreater => Some(BinOp::ForwardShift),
        Token::TripleGreaterEqual => Some(BinOp::ForwardShiftAssign),
        Token::Ampersand => Some(BinOp::BitAnd),
        Token::AmpersandEqual => Some(BinOp::BitAndAssign),
        Token::DoubleAmpersand => Some(BinOp::LogicalAnd),
        Token::Bar => Some(BinOp::BitOr),
        Token::BarEqual => Some(BinOp::BitOrAssign),
        Token::DoubleBar => Some(BinOp::LogicalOr),
        Token::Circumflex => Some(BinOp::BitXor),
        Token::CircumflexEqual => Some(BinOp::BitXorAssign),
        _ => None,
    }
}

/// Tells which operator of a precedence a token is.
pub fn as_operator_of(token: &Token, precedence: Precedence) -> (made: Option<BinOp>)
    ensures
        made == operator_of(*token, precedence),
{
    match as_binary_operator(token) {
        Some(op) => if op.precedence() == precedence {
            Some(op)
        } else {
            None
        },
        None => None,
    }
}

/// Takes the closing parenthesis that has to come next.
fn expect_closing(lexer: &mut Lexer, open: Range) -> (result: Result<Range, Error>)
    ensures
        result == closing(old(lexer).stream(), open).result,
        final(lexer).stream() == closing(old(lexer).stream(), open).rest,
        final(lexer).source() == old(lexer).source(),
{
    match lexer.next() {
        Err(error) => Err(error),
        Ok(None) => Err(Error::NoClosingParenthesis(open)),
        Ok(Some((place, Token::ClosingParenthesis))) => Ok(place),
        Ok(Some((place, _))) => Err(Error::UnexpectedTokenInParenthesis(open, place)),
    }
}

/// Takes what stands in place of a missing operand, and makes the error of
/// it.
fn fail_for_operand(lexer: &mut Lexer, operator: Range, prefix: bool) -> (error: Error)
    ensures
        error == missing_operand(old(lexer).stream(), operator, prefix),
        final(lexer).stream() == rest(old(lexer).stream()),
        final(lexer).source() == old(lexer).source(),
{
    match lexer.next() {
        Err(error) => error,
        Ok(Some((place, _))) => if prefix {
            Error::UnexpectedTokenAfterPrefixOperator(operator, place)
        } else {
            Error::UnexpectedTokenAfterBinaryOperator(operator, place)
        },
        Ok(None) => if prefix {
            Error::UnexpectedEOFAfterPrefixOperator(operator)
        } else {
            Error::UnexpectedEOFAfterBinaryOperator(operator)
        },
    }
}

/// Parses a sentence: an expression, or nothing, and the semicolon behind
/// it. Gives nothing where the input has ended. Where what the lexer has
/// yet to hand out holds a semicolon or an error, the sentence is read
/// without running out of input.
pub fn parse_sentence(lexer: &mut Lexer) -> (result: Result<Option<PPreSentence>, Error>)
    ensures
        result == sentence(old(lexer).stream()).result,
        final(lexer).stream() == sentence(old(lexer).stream()).rest,
        final(lexer).source() == old(lexer).source(),
        readable(old(lexer).stream()) ==> !ran_out(result),
{
    proof {
        if readable(lexer.stream()) {
            ready_is_enough(lexer.stream());
        }
    }
    let found = match parse_expr(lexer) {
        Ok(found) => found,
        Err(error) => {
            return Err(error);
        },
    };
    match lexer.next() {
        Err(error) => Err(error),
        Ok(Some((semicolon, Token::Semicolon))) => {
            let place = match &found {
                Some(inside) => inside.0.join(semicolon),
                None => semicolon,
            };
            Ok(Some((place, PreSentence::Expr(found))))
        },
        Ok(Some((place, _))) => Err(Error::MissingSemicolon(Some(place))),
        Ok(None) => match found {
            Some(_) => Err(Error::MissingSemicolon(None)),
            None => Ok(None),
        },
    }
}

/// Parses an expression, if the input goes on with one.
pub fn parse_expr(lexer: &mut Lexer) -> (result: Result<Option<PPreExpr>, Error>)
    ensures
        result == expression(old(lexer).stream()).result,
        final(lexer).stream() == expression(old(lexer).stream()).rest,
        final(lexer).stream().len() <= old(lexer).stream().len(),
        final(lexer).source() == old(lexer).source(),
    decreases old(lexer).stream().len(), 29nat,
{
    parse_bin_op(lexer, Precedence::first())
}

/// Parses an operand, if the input goes on with one.
pub fn parse_factor(lexer: &mut Lexer) -> (result: Result<Option<PPreExpr>, Error>)
    ensures
        result == factor(old(lexer).stream()).result,
        final(lexer).stream() == factor(old(lexer).stream()).rest,
        final(lexer).stream().len() <= old(lexer).stream().len(),
        final(lexer).source() == old(lexer).source(),
    decreases old(lexer).stream().len(), 0nat,
{
    let (place, start) = match lexer.next_if_map(classify) {
        Ok(Some(made)) => made,
        Ok(None) => {
            return Ok(None);
        },
        Err(error) => {
            return Err(error);
        },
    };
    match start {
        Lead::Atom(atom) => parse_calls(lexer, (place, atom)),
        Lead::Prefix(op) => {
            match parse_factor(lexer) {
                Err(error) => Err(error),
                Ok(None) => Err(fail_for_operand(lexer, place, true)),
                Ok(Some(operand)) => {
                    let whole = place.join(operand.0);
                    parse_calls(lexer, (whole, PreExpr::UnOp((place, op), Box::new(operand))))
                },
            }
        },
        Lead::Open => {
            let inside = match parse_expr(lexer) {
                Ok(inside) => inside,
                Err(error) => {
                    return Err(error);
                },
            };
            let close = match expect_closing(lexer, place) {
                Ok(close) => close,
                Err(error) => {
                    return Err(error);
                },
            };
            match inside {
                None => Err(Error::EmptyParenthesis(place, close)),
                Some(inside) => parse_calls(
                    lexer,
                    (place.join(close), PreExpr::Group(Box::new(inside))),
                ),
            }
        },
    }
}

/// Parses the calls behind an operand.
pub fn parse_calls(lexer: &mut Lexer, callee: PPreExpr) -> (result: Result<
    Option<PPreExpr>,
    Error,
>)
    ensures
        result == calls(old(lexer).stream(), callee).result,
        final(lexer).stream() == calls(old(lexer).stream(), callee).rest,
        final(lexer).stream().len() <= old(lexer).stream().len(),
        final(lexer).source() == old(lexer).source(),
    decreases old(lexer).stream().len(), 0nat,
{
    let open = match lexer.next_if(Token::is_opening_parenthesis) {
        Ok(Some(open)) => open.0,
        Ok(None) => {
            return Ok(Some(callee));
        },
        Err(error) => {
            return Err(error);
        },
    };
    let arguments = match parse_list(lexer) {
        Ok(arguments) => arguments,
        Err(error) => {
            return Err(error);
        },
    };
    match expect_closing(lexer, open) {
        Err(error) => Err(error),
        Ok(close) => {
            let whole = callee.0.join(close);
            parse_calls(lexer, (whole, PreExpr::Call(Box::new(callee), arguments)))
        },
    }
}

/// Parses an expression of operators of the given precedence and stronger
/// ones, if the input goes on with one.
pub fn parse_bin_op(lexer: &mut Lexer, prec: Precedence) -> (result: Result<
    Option<PPreExpr>,
    Error,
>)
    ensures
        result == binary(old(lexer).stream(), prec).result,
        final(lexer).stream() == binary(old(lexer).stream(), prec).rest,
        final(lexer).stream().len() <= old(lexer).stream().len(),
        final(lexer).source() == old(lexer).source(),
    decreases old(lexer).stream().len(), 2 + 2 * prec.rank(),
{
    let stronger = match prec.next() {
        Some(stronger) => stronger,
        None => {
            return parse_factor(lexer);
        },
    };
    match parse_bin_op(lexer, stronger) {
        Ok(Some(left)) => parse_chain(lexer, prec, left),
        other => other,
    }
}

/// Parses the operators of the given precedence and their operands behind
/// a first operand.
pub fn parse_chain(lexer: &mut Lexer, prec: Precedence, left: PPreExpr) -> (result: Result<
    Option<PPreExpr>,
    Error,
>)
    ensures
        result == chain(old(lexer).stream(), prec, left).result,
        final(lexer).stream() == chain(old(lexer).stream(), prec, left).rest,
        final(lexer).stream().len() <= old(lexer).stream().len(),
        final(lexer).source() == old(lexer).source(),
    decreases old(lexer).stream().len(), 1 + 2 * prec.rank(),
{
    let pick = |token: &Token| -> (made: Option<BinOp>)
        ensures
            made == operator_of(*token, prec),
        { as_operator_of(token, prec) };
    let op = match lexer.next_if_map(pick) {
        Ok(Some(op)) => op,
        Ok(None) => {
            return Ok(Some(left));
        },
        Err(error) => {
            return Err(error);
        },
    };
    let assoc = prec.assoc();
    let side = match assoc {
        Assoc::RightToLeft => prec,
        Assoc::LeftToRight => match prec.next() {
            Some(stronger) => stronger,
            None => prec,
        },
    };
    match parse_bin_op(lexer, side) {
        Err(error) => Err(error),
        Ok(None) => Err(fail_for_operand(lexer, op.0, false)),
        Ok(Some(right)) => {
            let whole = left.0.join(right.0);
            let joined = (whole, PreExpr::BinOp(op, Box::new(left), Box::new(right)));
            match assoc {
                Assoc::LeftToRight => parse_chain(lexer, prec, joined),
                Assoc::RightToLeft => Ok(Some(joined)),
            }
        },
    }
}

/// Parses the expressions of a list, with commas between them.
pub fn parse_list(lexer: &mut Lexer) -> (result: Result<List<PPreExpr>, Error>)
    ensures
        result == list(old(lexer).stream()).result,
        final(lexer).stream() == list(old(lexer).stream()).rest,
        final(lexer).stream().len() <= old(lexer).stream().len(),
        final(lexer).source() == old(lexer).source(),
    decreases old(lexer).stream().len(), 30nat,
{
    let found = match parse_expr(lexer) {
        Ok(found) => found,
        Err(error) => {
            return Err(error);
        },
    };
    match lexer.next_if(Token::is_comma) {
        Err(error) => Err(error),
        Ok(Some(comma)) => match found {
            None => Err(Error::NoExpressionBeforeComma(comma.0)),
            Some(expression) => match parse_list(lexer) {
                Err(error) => Err(error),
                Ok(others) => Ok(List::Cons(Box::new(expression), Box::new(others))),
            },
        },
        Ok(None) => Ok(
            match found {
                Some(expression) => List::Cons(Box::new(expression), Box::new(List::Nil)),
                None => List::Nil,
            },
        ),
    }
}

} // verus!
