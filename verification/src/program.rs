//! Typed programs: what the compiler makes and the evaluator runs.
//!
//! There is one family of expressions for each type that a value can have,
//! and each constructor takes operands of fixed families. A program that can
//! be built is therefore well typed.

use vstd::prelude::*;
use crate::function::{RealFunction, SoundFunction, VoidFunction};
use crate::list::List;
use crate::number::Real;
use crate::pos::Range;
use crate::types::Type;

verus! {

/// An expression of any type.
#[derive(Debug, PartialEq, Eq)]
pub enum Expression {
    Real(RealExpression),
    Boolean(BooleanExpression),
    Sound(SoundExpression),
    String(StringExpression),
    Void(VoidExpression),
}

/// An argument of a call: the cell of the function that takes it, and the
/// expression that gives its value.
#[derive(Debug, PartialEq, Eq)]
pub enum Argument {
    Real(usize, RealExpression),
    Boolean(usize, BooleanExpression),
    Sound(usize, SoundExpression),
    String(usize, StringExpression),
}

/// An expression that gives a real.
#[derive(Debug, PartialEq, Eq)]
pub enum RealExpression {
    Const(Real),
    /// The contents of a real cell.
    Reference(usize),
    Print(Box<RealExpression>),
    Minus(Box<RealExpression>),
    Reciprocal(Box<RealExpression>),
    Add(Box<RealExpression>, Box<RealExpression>),
    Sub(Box<RealExpression>, Box<RealExpression>),
    Mul(Box<RealExpression>, Box<RealExpression>),
    Div(Box<RealExpression>, Box<RealExpression>),
    Rem(Box<RealExpression>, Box<RealExpression>),
    Pow(Box<RealExpression>, Box<RealExpression>),
    Invocation(RealFunction, List<Argument>),
}

/// An expression that gives a truth value.
#[derive(Debug, PartialEq, Eq)]
pub enum BooleanExpression {
    /// The contents of a boolean cell.
    Reference(usize),
    Print(Box<BooleanExpression>),
    Not(Box<BooleanExpression>),
    RealLess(Box<RealExpression>, Box<RealExpression>),
    RealGreater(Box<RealExpression>, Box<RealExpression>),
    RealEqual(Box<RealExpression>, Box<RealExpression>),
    StringEqual(Box<StringExpression>, Box<StringExpression>),
    RealNotEqual(Box<RealExpression>, Box<RealExpression>),
    StringNotEqual(Box<StringExpression>, Box<StringExpression>),
    And(Box<BooleanExpression>, Box<BooleanExpression>),
    Or(Box<BooleanExpression>, Box<BooleanExpression>),
}

/// An expression that gives a sound.
#[derive(Debug, PartialEq, Eq)]
pub enum SoundExpression {
    /// The contents of a sound cell.
    Reference(usize),
    Play(Box<SoundExpression>),
    /// The sound that has the value of a real at all times.
    Real(RealExpression),
    Minus(Box<SoundExpression>),
    Reciprocal(Box<SoundExpression>),
    Add(Box<SoundExpression>, Box<SoundExpression>),
    Sub(Box<SoundExpression>, Box<SoundExpression>),
    Mul(Box<SoundExpression>, Box<SoundExpression>),
    Div(Box<SoundExpression>, Box<SoundExpression>),
    Rem(Box<SoundExpression>, Box<SoundExpression>),
    Pow(Box<SoundExpression>, Box<SoundExpression>),
    /// The sound moved earlier by a number of seconds.
    LeftShift(Box<SoundExpression>, Box<RealExpression>),
    /// The sound moved later by a number of seconds.
    RightShift(Box<SoundExpression>, Box<RealExpression>),
    Invocation(SoundFunction, List<Argument>),
    /// A function of reals applied to sounds sample by sample: the function,
    /// the arguments that are the same for every sample, and the sounds with
    /// the real cells that take their samples.
    Apply(RealFunction, List<Argument>, List<(usize, SoundExpression)>),
}

/// An expression that gives a string.
#[derive(Debug, PartialEq, Eq)]
pub enum StringExpression {
    Const(String),
    /// The contents of a string cell.
    Reference(usize),
    Print(Box<StringExpression>),
    Add(Box<StringExpression>, Box<StringExpression>),
}

/// An expression that gives nothing.
#[derive(Debug, PartialEq, Eq)]
pub enum VoidExpression {
    Const,
    Invocation(VoidFunction, List<Argument>),
}

/// A statement.
#[derive(Debug, PartialEq, Eq)]
pub enum Statement {
    Expression(Option<Expression>),
    /// An assignment: the cell and the expression of its type.
    RealSubstitution(usize, RealExpression),
    BooleanSubstitution(usize, BooleanExpression),
    SoundSubstitution(usize, SoundExpression),
    StringSubstitution(usize, StringExpression),
    While(BooleanExpression, Box<Statement>),
    If(BooleanExpression, Box<Statement>, Option<Box<Statement>>),
    Block(List<Statement>),
    Break,
    Continue,
    /// Ends the function body that it stands in with the value of an
    /// expression.
    Return(Expression),
}

impl Expression {
    /// The type of the expression.
    pub open spec fn spec_ty(self) -> Type {
        match self {
            Expression::Real(_) => Type::Real,
            Expression::Boolean(_) => Type::Boolean,
            Expression::Sound(_) => Type::Sound,
            Expression::String(_) => Type::String,
            Expression::Void(_) => Type::Void,
        }
    }

    /// The type of the expression.
    pub fn ty(&self) -> (ty: Type)
        ensures
            ty == self.spec_ty(),
    {
        match self {
            Expression::Real(_) => Type::Real,
            Expression::Boolean(_) => Type::Boolean,
            Expression::Sound(_) => Type::Sound,
            Expression::String(_) => Type::String,
            Expression::Void(_) => Type::Void,
        }
    }
}

/// A compiled expression with the place of its source, or nothing.
pub type Placed = Option<(Expression, Range)>;

/// A compiled expression taken as a real: it has to be one.
pub open spec fn as_real(expression: Placed) -> Result<RealExpression, Placed> {
    match expression {
        Some((Expression::Real(a), _)) => Ok(a),
        other => Err(other),
    }
}

/// A compiled expression taken as a boolean: it has to be one.
pub open spec fn as_boolean(expression: Placed) -> Result<BooleanExpression, Placed> {
    match expression {
        Some((Expression::Boolean(a), _)) => Ok(a),
        other => Err(other),
    }
}

/// A compiled expression taken as a sound: a sound, or a real, which
/// stands for the sound that is constant at its value.
pub open spec fn as_sound(expression: Placed) -> Result<SoundExpression, Placed> {
    match expression {
        Some((Expression::Sound(a), _)) => Ok(a),
        Some((Expression::Real(a), _)) => Ok(SoundExpression::Real(a)),
        other => Err(other),
    }
}

/// A compiled expression taken as a string: it has to be one.
pub open spec fn as_string(expression: Placed) -> Result<StringExpression, Placed> {
    match expression {
        Some((Expression::String(a), _)) => Ok(a),
        other => Err(other),
    }
}

/// Nothing taken as an expression that gives nothing.
pub open spec fn as_void(expression: Placed) -> Result<VoidExpression, Placed> {
    match expression {
        None => Ok(VoidExpression::Const),
        other => Err(other),
    }
}

impl RealExpression {
    /// Takes a compiled expression as a real, or hands it back.
    pub fn from(expr: Placed) -> (result: Result<RealExpression, Placed>)
        ensures
            result == as_real(expr),
    {
        match expr {
            Some((Expression::Real(a), _)) => Ok(a),
            other => Err(other),
        }
    }
}

impl BooleanExpression {
    /// Takes a compiled expression as a boolean, or hands it back.
    pub fn from(expr: Placed) -> (result: Result<BooleanExpression, Placed>)
        ensures
            result == as_boolean(expr),
    {
        match expr {
            Some((Expression::Boolean(a), _)) => Ok(a),
            other => Err(other),
        }
    }
}

impl SoundExpression {
    /// Takes a compiled expression as a sound, or hands it back.
    pub fn from(expr: Placed) -> (result: Result<SoundExpression, Placed>)
        ensures
            result == as_sound(expr),
    {
        match expr {
            Some((Expression::Sound(a), _)) => Ok(a),
            Some((Expression::Real(a), _)) => Ok(SoundExpression::Real(a)),
            other => Err(other),
        }
    }
}

impl StringExpression {
    /// Takes a compiled expression as a string, or hands it back.
    pub fn from(expr: Placed) -> (result: Result<StringExpression, Placed>)
        ensures
            result == as_string(expr),
    {
        match expr {
            Some((Expression::String(a), _)) => Ok(a),
            other => Err(other),
        }
    }
}

impl VoidExpression {
    /// Takes nothing as an expression that gives nothing, or hands the
    /// compiled expression back.
    pub fn from(expr: Placed) -> (result: Result<VoidExpression, Placed>)
        ensures
            result == as_void(expr),
    {
        match expr {
            None => Ok(VoidExpression::Const),
            other => Err(other),
        }
    }
}

impl Argument {
    /// A copy of the argument.
    pub fn duplicate(&self) -> (copy: Argument)
        ensures
            copy == *self,
        decreases self,
    {
        match self {
            Argument::Real(cell, expression) => Argument::Real(*cell, expression.duplicate()),
            Argument::Boolean(cell, expression) => Argument::Boolean(*cell, expression.duplicate()),
            Argument::Sound(cell, expression) => Argument::Sound(*cell, expression.duplicate()),
            Argument::String(cell, expression) => Argument::String(*cell, expression.duplicate()),
        }
    }
}

/// A copy of a list of arguments.
pub fn duplicate_arguments(arguments: &List<Argument>) -> (copy: List<Argument>)
    ensures
        copy == *arguments,
    decreases arguments,
{
    match arguments {
        List::Nil => List::Nil,
        List::Cons(head, tail) => List::Cons(
            Box::new(head.duplicate()),
            Box::new(duplicate_arguments(tail)),
        ),
    }
}

/// A copy of a list of sounds and the cells that take their samples.
pub fn duplicate_sounds(sounds: &List<(usize, SoundExpression)>) -> (copy: List<
    (usize, SoundExpression),
>)
    ensures
        copy == *sounds,
    decreases sounds,
{
    match sounds {
        List::Nil => List::Nil,
        List::Cons(head, tail) => List::Cons(
            Box::new((head.0, head.1.duplicate())),
            Box::new(duplicate_sounds(tail)),
        ),
    }
}

impl RealExpression {
    /// A copy of the expression.
    pub fn duplicate(&self) -> (copy: RealExpression)
        ensures
            copy == *self,
        decreases self,
    {
        match self {
            RealExpression::Const(value) => RealExpression::Const(*value),
            RealExpression::Reference(cell) => RealExpression::Reference(*cell),
            RealExpression::Print(a) => RealExpression::Print(Box::new(a.duplicate())),
            RealExpression::Minus(a) => RealExpression::Minus(Box::new(a.duplicate())),
            RealExpression::Reciprocal(a) => RealExpression::Reciprocal(Box::new(a.duplicate())),
            RealExpression::Add(a, b) => RealExpression::Add(
                Box::new(a.duplicate()),
                Box::new(b.duplicate()),
            ),
            RealExpression::Sub(a, b) => RealExpression::Sub(
                Box::new(a.duplicate()),
                Box::new(b.duplicate()),
            ),
            RealExpression::Mul(a, b) => RealExpression::Mul(
                Box::new(a.duplicate()),
                Box::new(b.duplicate()),
            ),
            RealExpression::Div(a, b) => RealExpression::Div(
                Box::new(a.duplicate()),
                Box::new(b.duplicate()),
            ),
            RealExpression::Rem(a, b) => RealExpression::Rem(
                Box::new(a.duplicate()),
                Box::new(b.duplicate()),
            ),
            RealExpression::Pow(a, b) => RealExpression::Pow(
                Box::new(a.duplicate()),
                Box::new(b.duplicate()),
            ),
            RealExpression::Invocation(function, arguments) => RealExpression::Invocation(
                *function,
                duplicate_arguments(arguments),
            ),
        }
    }
}

impl BooleanExpression {
    /// A copy of the expression.
    pub fn duplicate(&self) -> (copy: BooleanExpression)
        ensures
            copy == *self,
        decreases self,
    {
        match self {
            BooleanExpression::Reference(cell) => BooleanExpression::Reference(*cell),
            BooleanExpression::Print(a) => BooleanExpression::Print(Box::new(a.duplicate())),
            BooleanExpression::Not(a) => BooleanExpression::Not(Box::new(a.duplicate())),
            BooleanExpression::RealLess(a, b) => BooleanExpression::RealLess(
                Box::new(a.duplicate()),
                Box::new(b.duplicate()),
            ),
            BooleanExpression::RealGreater(a, b) => BooleanExpression::RealGreater(
                Box::new(a.duplicate()),
                Box::new(b.duplicate()),
            ),
            BooleanExpression::RealEqual(a, b) => BooleanExpression::RealEqual(
                Box::new(a.duplicate()),
                Box::new(b.duplicate()),
            ),
            BooleanExpression::StringEqual(a, b) => BooleanExpression::StringEqual(
                Box::new(a.duplicate()),
                Box::new(b.duplicate()),
            ),
            BooleanExpression::RealNotEqual(a, b) => BooleanExpression::RealNotEqual(
                Box::new(a.duplicate()),
                Box::new(b.duplicate()),
            ),
            BooleanExpression::StringNotEqual(a, b) => BooleanExpression::StringNotEqual(
                Box::new(a.duplicate()),
                Box::new(b.duplicate()),
            ),
            BooleanExpression::And(a, b) => BooleanExpression::And(
                Box::new(a.duplicate()),
                Box::new(b.duplicate()),
            ),
            BooleanExpression::Or(a, b) => BooleanExpression::Or(
                Box::new(a.duplicate()),
                Box::new(b.duplicate()),
            ),
        }
    }
}

impl SoundExpression {
    /// A copy of the expression.
    pub fn duplicate(&self) -> (copy: SoundExpression)
        ensures
            copy == *self,
        decreases self,
    {
        match self {
            SoundExpression::Reference(cell) => SoundExpression::Reference(*cell),
            SoundExpression::Play(a) => SoundExpression::Play(Box::new(a.duplicate())),
            SoundExpression::Real(a) => SoundExpression::Real(a.duplicate()),
            SoundExpression::Minus(a) => SoundExpression::Minus(Box::new(a.duplicate())),
            SoundExpression::Reciprocal(a) => SoundExpression::Reciprocal(Box::new(a.duplicate())),
            SoundExpression::Add(a, b) => SoundExpression::Add(
                Box::new(a.duplicate()),
                Box::new(b.duplicate()),
            ),
            SoundExpression::Sub(a, b) => SoundExpression::Sub(
                Box::new(a.duplicate()),
                Box::new(b.duplicate()),
            ),
            SoundExpression::Mul(a, b) => SoundExpression::Mul(
                Box::new(a.duplicate()),
                Box::new(b.duplicate()),
            ),
            SoundExpression::Div(a, b) => SoundExpression::Div(
                Box::new(a.duplicate()),
                Box::new(b.duplicate()),
            ),
            SoundExpression::Rem(a, b) => SoundExpression::Rem(
                Box::new(a.duplicate()),
                Box::new(b.duplicate()),
            ),
            SoundExpression::Pow(a, b) => SoundExpression::Pow(
                Box::new(a.duplicate()),
                Box::new(b.duplicate()),
            ),
            SoundExpression::LeftShift(a, b) => SoundExpression::LeftShift(
                Box::new(a.duplicate()),
                Box::new(b.duplicate()),
            ),
            SoundExpression::RightShift(a, b) => SoundExpression::RightShift(
                Box::new(a.duplicate()),
                Box::new(b.duplicate()),
            ),
            SoundExpression::Invocation(function, arguments) => SoundExpression::Invocation(
                *function,
                duplicate_arguments(arguments),
            ),
            SoundExpression::Apply(function, arguments, sounds) => SoundExpression::Apply(
                *function,
                duplicate_arguments(arguments),
                duplicate_sounds(sounds),
            ),
        }
    }
}

impl StringExpression {
    /// A copy of the expression.
    pub fn duplicate(&self) -> (copy: StringExpression)
        ensures
            copy == *self,
        decreases self,
    {
        match self {
            StringExpression::Const(text) => StringExpression::Const(text.clone()),
            StringExpression::Reference(cell) => StringExpression::Reference(*cell),
            StringExpression::Print(a) => StringExpression::Print(Box::new(a.duplicate())),
            StringExpression::Add(a, b) => StringExpression::Add(
                Box::new(a.duplicate()),
                Box::new(b.duplicate()),
            ),
        }
    }
}

} // verus!
