//! The evaluator: what typed programs do when they run.
//!
//! An expression is evaluated against the cells of a store. Besides giving
//! its value it may write to the cells of the functions that it calls, and
//! leave effects in the output. Operands are evaluated from left to right.

use vstd::prelude::*;
use crate::compiler::{binary, Arithmetic, Binary};
use crate::error::Error;
use crate::list::List;
use crate::number::{
    apart, apply, clearly_apart, close, lawful, nearly_equal, result_of, Operation, Real,
};
use crate::output::{Effect, Event, Output, State};
use crate::pos::Range;
use crate::program::{
    Argument, BooleanExpression, Expression, RealExpression, SoundExpression, Statement,
    StringExpression, VoidExpression,
};
use crate::sound;
use crate::sound::{shifted, Sound};
use crate::store::{Memory, Store};

verus! {

/// A value: what an expression gives.
#[derive(Debug, PartialEq, Eq)]
pub enum Datum {
    Real(Real),
    Boolean(bool),
    Sound(Sound),
    String(String),
    Void,
}

/// The mathematical value of a [`Datum`].
pub enum Given {
    Real(Real),
    Boolean(bool),
    Sound(Sound),
    String(Seq<char>),
    Void,
}

impl View for Datum {
    type V = Given;

    open spec fn view(&self) -> Given {
        match *self {
            Datum::Real(value) => Given::Real(value),
            Datum::Boolean(value) => Given::Boolean(value),
            Datum::Sound(value) => Given::Sound(value),
            Datum::String(value) => Given::String(value@),
            Datum::Void => Given::Void,
        }
    }
}

/// How a statement ended.
#[derive(Debug, PartialEq, Eq)]
pub enum Signal {
    /// It ran to its end.
    Normal,
    /// It met a `break` that no loop inside it took.
    Break,
    /// It met a `continue` that no loop inside it took.
    Continue,
    /// A loop was stopped because it had run as many rounds as it was
    /// allowed.
    Exhausted,
    /// It met a `return`, with this value.
    Return(Datum),
}

/// The mathematical value of a [`Signal`].
pub enum Outcome {
    Normal,
    Break,
    Continue,
    Exhausted,
    Return(Given),
}

impl View for Signal {
    type V = Outcome;

    open spec fn view(&self) -> Outcome {
        match *self {
            Signal::Normal => Outcome::Normal,
            Signal::Break => Outcome::Break,
            Signal::Continue => Outcome::Continue,
            Signal::Exhausted => Outcome::Exhausted,
            Signal::Return(value) => Outcome::Return(value@),
        }
    }
}

/// The state with an effect put behind the output.
pub open spec fn with_event(state: State, event: Event) -> State {
    State { memory: state.memory, output: state.output.push(event) }
}

/// The value of a real expression, and the state after it is evaluated.
/// Every value is clamped to the finite range.
pub open spec fn real_value<F: Fn(Operation, Real, Real) -> Real>(
    expression: RealExpression,
    calc: F,
    state: State,
) -> (Real, State)
    decreases expression,
{
    match expression {
        RealExpression::Const(value) => (value.clamped(), state),
        RealExpression::Reference(cell) => (state.memory.read_real(cell).clamped(), state),
        RealExpression::Print(a) => {
            let inner = real_value(*a, calc, state);
            (inner.0.clamped(), with_event(inner.1, Event::Real(inner.0)))
        },
        RealExpression::Minus(a) => {
            let inner = real_value(*a, calc, state);
            (inner.0.negated().clamped(), inner.1)
        },
        RealExpression::Reciprocal(a) => {
            let inner = real_value(*a, calc, state);
            (result_of(calc, Operation::Reciprocal, inner.0, Real { bits: 0 }).clamped(), inner.1)
        },
        RealExpression::Add(a, b) => {
            let left = real_value(*a, calc, state);
            let right = real_value(*b, calc, left.1);
            (result_of(calc, Operation::Add, left.0, right.0).clamped(), right.1)
        },
        RealExpression::Sub(a, b) => {
            let left = real_value(*a, calc, state);
            let right = real_value(*b, calc, left.1);
            (result_of(calc, Operation::Subtract, left.0, right.0).clamped(), right.1)
        },
        RealExpression::Mul(a, b) => {
            let left = real_value(*a, calc, state);
            let right = real_value(*b, calc, left.1);
            (result_of(calc, Operation::Multiply, left.0, right.0).clamped(), right.1)
        },
        RealExpression::Div(a, b) => {
            let left = real_value(*a, calc, state);
            let right = real_value(*b, calc, left.1);
            (result_of(calc, Operation::Divide, left.0, right.0).clamped(), right.1)
        },
        RealExpression::Rem(a, b) => {
            let left = real_value(*a, calc, state);
            let right = real_value(*b, calc, left.1);
            (result_of(calc, Operation::Remainder, left.0, right.0).clamped(), right.1)
        },
        RealExpression::Pow(a, b) => {
            let left = real_value(*a, calc, state);
            let right = real_value(*b, calc, left.1);
            (result_of(calc, Operation::Power, left.0, right.0).clamped(), right.1)
        },
        RealExpression::Invocation(function, arguments) => {
            let called = arguments_set(arguments, calc, state);
            (function.value(calc, called.memory).clamped(), called)
        },
    }
}

/// The state after an argument is evaluated and written to its cell.
pub open spec fn argument_set<F: Fn(Operation, Real, Real) -> Real>(
    argument: Argument,
    calc: F,
    state: State,
) -> State
    decreases argument,
{
    match argument {
        Argument::Real(cell, expression) => {
            let inner = real_value(expression, calc, state);
            State { memory: inner.1.memory.with_real(cell, inner.0), output: inner.1.output }
        },
        Argument::Boolean(cell, expression) => {
            let inner = boolean_value(expression, calc, state);
            State { memory: inner.1.memory.with_boolean(cell, inner.0), output: inner.1.output }
        },
        Argument::Sound(cell, expression) => {
            let inner = sound_value(expression, calc, state);
            State { memory: inner.1.memory.with_sound(cell, inner.0), output: inner.1.output }
        },
        Argument::String(cell, expression) => {
            let inner = string_value(expression, calc, state);
            State { memory: inner.1.memory.with_string(cell, inner.0), output: inner.1.output }
        },
    }
}

/// The state after the arguments of a call are evaluated and written to
/// their cells, one after the other.
pub open spec fn arguments_set<F: Fn(Operation, Real, Real) -> Real>(
    arguments: List<Argument>,
    calc: F,
    state: State,
) -> State
    decreases arguments,
{
    match arguments {
        List::Nil => state,
        List::Cons(head, tail) => arguments_set(*tail, calc, argument_set(*head, calc, state)),
    }
}

/// The value of a boolean expression, and the state after it is evaluated.
///
/// Two reals are equal where they differ by no more than a millionth. The
/// right operand of `&&` and of `||` is evaluated only where the left one
/// does not decide.
pub open spec fn boolean_value<F: Fn(Operation, Real, Real) -> Real>(
    expression: BooleanExpression,
    calc: F,
    state: State,
) -> (bool, State)
    decreases expression,
{
    match expression {
        BooleanExpression::Reference(cell) => (state.memory.read_boolean(cell), state),
        BooleanExpression::Print(a) => {
            let inner = boolean_value(*a, calc, state);
            (inner.0, with_event(inner.1, Event::Boolean(inner.0)))
        },
        BooleanExpression::Not(a) => {
            let inner = boolean_value(*a, calc, state);
            (!inner.0, inner.1)
        },
        BooleanExpression::RealLess(a, b) => {
            let left = real_value(*a, calc, state);
            let right = real_value(*b, calc, left.1);
            (left.0.below(right.0), right.1)
        },
        BooleanExpression::RealGreater(a, b) => {
            let left = real_value(*a, calc, state);
            let right = real_value(*b, calc, left.1);
            (right.0.below(left.0), right.1)
        },
        BooleanExpression::RealEqual(a, b) => {
            let left = real_value(*a, calc, state);
            let right = real_value(*b, calc, left.1);
            (close(calc, left.0, right.0), right.1)
        },
        BooleanExpression::RealNotEqual(a, b) => {
            let left = real_value(*a, calc, state);
            let right = real_value(*b, calc, left.1);
            (apart(calc, left.0, right.0), right.1)
        },
        BooleanExpression::StringEqual(a, b) => {
            let left = string_value(*a, calc, state);
            let right = string_value(*b, calc, left.1);
            (left.0 == right.0, right.1)
        },
        BooleanExpression::StringNotEqual(a, b) => {
            let left = string_value(*a, calc, state);
            let right = string_value(*b, calc, left.1);
            (left.0 != right.0, right.1)
        },
        BooleanExpression::And(a, b) => {
            let left = boolean_value(*a, calc, state);
            if left.0 {
                boolean_value(*b, calc, left.1)
            } else {
                (false, left.1)
            }
        },
        BooleanExpression::Or(a, b) => {
            let left = boolean_value(*a, calc, state);
            if left.0 {
                (true, left.1)
            } else {
                boolean_value(*b, calc, left.1)
            }
        },
    }
}

/// The value of a string expression, and the state after it is evaluated.
pub open spec fn string_value<F: Fn(Operation, Real, Real) -> Real>(
    expression: StringExpression,
    calc: F,
    state: State,
) -> (Seq<char>, State)
    decreases expression,
{
    match expression {
        StringExpression::Const(text) => (text@, state),
        StringExpression::Reference(cell) => (state.memory.read_string(cell), state),
        StringExpression::Print(a) => {
            let inner = string_value(*a, calc, state);
            (inner.0, with_event(inner.1, Event::Text(inner.0)))
        },
        StringExpression::Add(a, b) => {
            let left = string_value(*a, calc, state);
            let right = string_value(*b, calc, left.1);
            (left.0 + right.0, right.1)
        },
    }
}

/// The value of a sound expression, and the state after it is evaluated.
///
/// A real gives the sound that is constant at its value. `<<` moves a sound
/// earlier by the value of its right operand, and `>>` later. Playing a
/// sound gives the sound.
pub open spec fn sound_value<F: Fn(Operation, Real, Real) -> Real>(
    expression: SoundExpression,
    calc: F,
    state: State,
) -> (Sound, State)
    decreases expression,
{
    match expression {
        SoundExpression::Reference(cell) => (state.memory.read_sound(cell), state),
        SoundExpression::Play(a) => sound_value(*a, calc, state),
        SoundExpression::Real(a) => {
            let inner = real_value(a, calc, state);
            (Sound::Const(inner.0), inner.1)
        },
        SoundExpression::Minus(a) => {
            let inner = sound_value(*a, calc, state);
            (Sound::Minus(Box::new(inner.0)), inner.1)
        },
        SoundExpression::Reciprocal(a) => {
            let inner = sound_value(*a, calc, state);
            (Sound::Reciprocal(Box::new(inner.0)), inner.1)
        },
        SoundExpression::Add(a, b) => {
            let left = sound_value(*a, calc, state);
            let right = sound_value(*b, calc, left.1);
            (Sound::Add(Box::new(left.0), Box::new(right.0)), right.1)
        },
        SoundExpression::Sub(a, b) => {
            let left = sound_value(*a, calc, state);
            let right = sound_value(*b, calc, left.1);
            (Sound::Sub(Box::new(left.0), Box::new(right.0)), right.1)
        },
        SoundExpression::Mul(a, b) => {
            let left = sound_value(*a, calc, state);
            let right = sound_value(*b, calc, left.1);
            (Sound::Mul(Box::new(left.0), Box::new(right.0)), right.1)
        },
        SoundExpression::Div(a, b) => {
            let left = sound_value(*a, calc, state);
            let right = sound_value(*b, calc, left.1);
            (Sound::Div(Box::new(left.0), Box::new(right.0)), right.1)
        },
        SoundExpression::Rem(a, b) => {
            let left = sound_value(*a, calc, state);
            let right = sound_value(*b, calc, left.1);
            (Sound::Rem(Box::new(left.0), Box::new(right.0)), right.1)
        },
        SoundExpression::Pow(a, b) => {
            let left = sound_value(*a, calc, state);
            let right = sound_value(*b, calc, left.1);
            (Sound::Pow(Box::new(left.0), Box::new(right.0)), right.1)
        },
        SoundExpression::LeftShift(a, b) => {
            let left = sound_value(*a, calc, state);
            let right = real_value(*b, calc, left.1);
            (shifted(left.0, right.0, calc), right.1)
        },
        SoundExpression::RightShift(a, b) => {
            let left = sound_value(*a, calc, state);
            let right = real_value(*b, calc, left.1);
            (shifted(left.0, right.0.negated(), calc), right.1)
        },
        SoundExpression::Invocation(function, arguments) => {
            let called = arguments_set(arguments, calc, state);
            (function.value(calc, called.memory), called)
        },
        SoundExpression::Apply(function, arguments, sounds) => {
            let fixed = arguments_bound(arguments, calc, state);
            let fed = sounds_bound(sounds, calc, fixed.1);
            (Sound::Apply(function, fixed.0, fed.0), fed.1)
        },
    }
}

/// The arguments of a function that is applied to sounds, each with its
/// value, and the state after they are evaluated. A string is written to
/// its cell at once and not kept with the sound.
pub open spec fn arguments_bound<F: Fn(Operation, Real, Real) -> Real>(
    arguments: List<Argument>,
    calc: F,
    state: State,
) -> (List<sound::Argument>, State)
    decreases arguments,
{
    match arguments {
        List::Nil => (List::Nil, state),
        List::Cons(head, tail) => match *head {
            Argument::Real(cell, expression) => {
                let first = real_value(expression, calc, state);
                let rest = arguments_bound(*tail, calc, first.1);
                (
                    List::Cons(Box::new(sound::Argument::Real(cell, first.0)), Box::new(rest.0)),
                    rest.1,
                )
            },
            Argument::Boolean(cell, expression) => {
                let first = boolean_value(expression, calc, state);
                let rest = arguments_bound(*tail, calc, first.1);
                (
                    List::Cons(Box::new(sound::Argument::Boolean(cell, first.0)), Box::new(rest.0)),
                    rest.1,
                )
            },
            Argument::Sound(cell, expression) => {
                let first = sound_value(expression, calc, state);
                let rest = arguments_bound(*tail, calc, first.1);
                (
                    List::Cons(Box::new(sound::Argument::Sound(cell, first.0)), Box::new(rest.0)),
                    rest.1,
                )
            },
            Argument::String(cell, expression) => {
                let first = string_value(expression, calc, state);
                arguments_bound(
                    *tail,
                    calc,
                    State {
                        memory: first.1.memory.with_string(cell, first.0),
                        output: first.1.output,
                    },
                )
            },
        },
    }
}

/// The sounds that a function is applied to, each with its value and the
/// cell that takes its samples, and the state after they are evaluated.
pub open spec fn sounds_bound<F: Fn(Operation, Real, Real) -> Real>(
    sounds: List<(usize, SoundExpression)>,
    calc: F,
    state: State,
) -> (List<(usize, Sound)>, State)
    decreases sounds,
{
    match sounds {
        List::Nil => (List::Nil, state),
        List::Cons(head, tail) => {
            let first = sound_value(head.1, calc, state);
            let rest = sounds_bound(*tail, calc, first.1);
            (List::Cons(Box::new((head.0, first.0)), Box::new(rest.0)), rest.1)
        },
    }
}

/// The state after a void expression is evaluated.
pub open spec fn void_effect<F: Fn(Operation, Real, Real) -> Real>(
    expression: VoidExpression,
    calc: F,
    state: State,
) -> State {
    match expression {
        VoidExpression::Const => state,
        VoidExpression::Invocation(function, arguments) => {
            let called = arguments_set(arguments, calc, state);
            with_event(called, function.request(called.memory))
        },
    }
}

/// The value of an expression of any type, and the state after it is
/// evaluated.
pub open spec fn value_of<F: Fn(Operation, Real, Real) -> Real>(
    expression: Expression,
    calc: F,
    state: State,
) -> (Given, State) {
    match expression {
        Expression::Real(a) => {
            let value = real_value(a, calc, state);
            (Given::Real(value.0), value.1)
        },
        Expression::Boolean(a) => {
            let value = boolean_value(a, calc, state);
            (Given::Boolean(value.0), value.1)
        },
        Expression::Sound(a) => {
            let value = sound_value(a, calc, state);
            (Given::Sound(value.0), value.1)
        },
        Expression::String(a) => {
            let value = string_value(a, calc, state);
            (Given::String(value.0), value.1)
        },
        Expression::Void(a) => (Given::Void, void_effect(a, calc, state)),
    }
}

/// The state after an expression of any type is evaluated and its value
/// dropped.
pub open spec fn effect<F: Fn(Operation, Real, Real) -> Real>(
    expression: Expression,
    calc: F,
    state: State,
) -> State {
    match expression {
        Expression::Real(a) => real_value(a, calc, state).1,
        Expression::Boolean(a) => boolean_value(a, calc, state).1,
        Expression::Sound(a) => sound_value(a, calc, state).1,
        Expression::String(a) => string_value(a, calc, state).1,
        Expression::Void(a) => void_effect(a, calc, state),
    }
}

/// How a statement ends, and the state in which it ends. No loop runs more
/// than `fuel` rounds in one go: one that would is stopped, and everything
/// around it with it.
///
/// The statements of a block run in order up to the first that does not end
/// normally, and the block ends as that one does. A loop takes a `break`,
/// which ends it, and a `continue`, which ends the round; a `return` ends
/// it and everything around it. A branch ends as the statement that it
/// runs.
pub open spec fn ran<F: Fn(Operation, Real, Real) -> Real>(
    statement: Statement,
    calc: F,
    state: State,
    fuel: nat,
) -> (Outcome, State)
    decreases statement, fuel + 1,
{
    match statement {
        Statement::Expression(None) => (Outcome::Normal, state),
        Statement::Expression(Some(expression)) => (Outcome::Normal, effect(expression, calc, state)),
        Statement::RealSubstitution(cell, expression) => {
            let value = real_value(expression, calc, state);
            (
                Outcome::Normal,
                State { memory: value.1.memory.with_real(cell, value.0), output: value.1.output },
            )
        },
        Statement::BooleanSubstitution(cell, expression) => {
            let value = boolean_value(expression, calc, state);
            (
                Outcome::Normal,
                State { memory: value.1.memory.with_boolean(cell, value.0), output: value.1.output },
            )
        },
        Statement::SoundSubstitution(cell, expression) => {
            let value = sound_value(expression, calc, state);
            (
                Outcome::Normal,
                State { memory: value.1.memory.with_sound(cell, value.0), output: value.1.output },
            )
        },
        Statement::StringSubstitution(cell, expression) => {
            let value = string_value(expression, calc, state);
            (
                Outcome::Normal,
                State { memory: value.1.memory.with_string(cell, value.0), output: value.1.output },
            )
        },
        Statement::While(_, _) => looped(statement, calc, state, fuel, fuel),
        Statement::If(condition, then, otherwise) => {
            let test = boolean_value(condition, calc, state);
            if test.0 {
                ran(*then, calc, test.1, fuel)
            } else {
                match otherwise {
                    Some(otherwise) => ran(*otherwise, calc, test.1, fuel),
                    None => (Outcome::Normal, test.1),
                }
            }
        },
        Statement::Block(statements) => ran_all(statements, calc, state, fuel),
        Statement::Break => (Outcome::Break, state),
        Statement::Continue => (Outcome::Continue, state),
        Statement::Return(expression) => {
            let value = value_of(expression, calc, state);
            (Outcome::Return(value.0), value.1)
        },
    }
}

/// How a loop ends that may run `left` more rounds, and the state in which
/// it ends. The condition is evaluated before every round.
pub open spec fn looped<F: Fn(Operation, Real, Real) -> Real>(
    statement: Statement,
    calc: F,
    state: State,
    fuel: nat,
    left: nat,
) -> (Outcome, State)
    decreases statement, left,
{
    match statement {
        Statement::While(condition, body) => {
            let test = boolean_value(condition, calc, state);
            if !test.0 {
                (Outcome::Normal, test.1)
            } else if left == 0 {
                (Outcome::Exhausted, test.1)
            } else {
                let round = ran(*body, calc, test.1, fuel);
                match round.0 {
                    Outcome::Break => (Outcome::Normal, round.1),
                    Outcome::Exhausted => (Outcome::Exhausted, round.1),
                    Outcome::Return(value) => (Outcome::Return(value), round.1),
                    _ => looped(statement, calc, round.1, fuel, (left - 1) as nat),
                }
            }
        },
        _ => (Outcome::Normal, state),
    }
}

/// How the statements of a block end, and the state in which they end.
pub open spec fn ran_all<F: Fn(Operation, Real, Real) -> Real>(
    statements: List<Statement>,
    calc: F,
    state: State,
    fuel: nat,
) -> (Outcome, State)
    decreases statements, fuel + 1,
{
    match statements {
        List::Nil => (Outcome::Normal, state),
        List::Cons(head, tail) => {
            let first = ran(*head, calc, state, fuel);
            match first.0 {
                Outcome::Normal => ran_all(*tail, calc, first.1, fuel),
                _ => first,
            }
        },
    }
}

/// After an assignment to a real cell that exists, a read of that cell
/// gives the value that was assigned, however many expressions hold the
/// cell.
pub proof fn assignment_is_read_back<F: Fn(Operation, Real, Real) -> Real>(
    cell: usize,
    expression: RealExpression,
    calc: F,
    state: State,
    fuel: nat,
)
    requires
        cell < state.memory.reals.len(),
    ensures
        ({
            let after = ran(Statement::RealSubstitution(cell, expression), calc, state, fuel).1;
            real_value(RealExpression::Reference(cell), calc, after).0 == real_value(
                expression,
                calc,
                state,
            ).0
        }),
{
    let value = real_value(expression, calc, state);
    evaluation_keeps_cells(expression, calc, state);
    value_is_clamped(expression, calc, state);
}

/// Every value of a real expression is clamped: clamping it again changes
/// nothing.
pub proof fn value_is_clamped<F: Fn(Operation, Real, Real) -> Real>(
    expression: RealExpression,
    calc: F,
    state: State,
)
    ensures
        real_value(expression, calc, state).0.clamped() == real_value(expression, calc, state).0,
        !real_value(expression, calc, state).0.is_infinite(),
{
}

/// Whether two memories have the same cells.
pub open spec fn same_cells(before: Memory, after: Memory) -> bool {
    &&& before.reals.len() == after.reals.len()
    &&& before.booleans.len() == after.booleans.len()
    &&& before.sounds.len() == after.sounds.len()
    &&& before.strings.len() == after.strings.len()
}

/// Evaluating a real expression makes no cell and removes none.
pub proof fn evaluation_keeps_cells<F: Fn(Operation, Real, Real) -> Real>(
    expression: RealExpression,
    calc: F,
    state: State,
)
    ensures
        same_cells(state.memory, real_value(expression, calc, state).1.memory),
    decreases expression,
{
    match expression {
        RealExpression::Const(_) => {},
        RealExpression::Reference(_) => {},
        RealExpression::Print(a) => evaluation_keeps_cells(*a, calc, state),
        RealExpression::Minus(a) => evaluation_keeps_cells(*a, calc, state),
        RealExpression::Reciprocal(a) => evaluation_keeps_cells(*a, calc, state),
        RealExpression::Add(a, b) => {
            evaluation_keeps_cells(*a, calc, state);
            evaluation_keeps_cells(*b, calc, real_value(*a, calc, state).1);
        },
        RealExpression::Sub(a, b) => {
            evaluation_keeps_cells(*a, calc, state);
            evaluation_keeps_cells(*b, calc, real_value(*a, calc, state).1);
        },
        RealExpression::Mul(a, b) => {
            evaluation_keeps_cells(*a, calc, state);
            evaluation_keeps_cells(*b, calc, real_value(*a, calc, state).1);
        },
        RealExpression::Div(a, b) => {
            evaluation_keeps_cells(*a, calc, state);
            evaluation_keeps_cells(*b, calc, real_value(*a, calc, state).1);
        },
        RealExpression::Rem(a, b) => {
            evaluation_keeps_cells(*a, calc, state);
            evaluation_keeps_cells(*b, calc, real_value(*a, calc, state).1);
        },
        RealExpression::Pow(a, b) => {
            evaluation_keeps_cells(*a, calc, state);
            evaluation_keeps_cells(*b, calc, real_value(*a, calc, state).1);
        },
        RealExpression::Invocation(_, arguments) => arguments_keep_cells(arguments, calc, state),
    }
}

/// Evaluating a boolean expression makes no cell and removes none.
pub proof fn boolean_keeps_cells<F: Fn(Operation, Real, Real) -> Real>(
    expression: BooleanExpression,
    calc: F,
    state: State,
)
    ensures
        same_cells(state.memory, boolean_value(expression, calc, state).1.memory),
    decreases expression,
{
    match expression {
        BooleanExpression::Reference(_) => {},
        BooleanExpression::Print(a) => boolean_keeps_cells(*a, calc, state),
        BooleanExpression::Not(a) => boolean_keeps_cells(*a, calc, state),
        BooleanExpression::RealLess(a, b) => {
            evaluation_keeps_cells(*a, calc, state);
            evaluation_keeps_cells(*b, calc, real_value(*a, calc, state).1);
        },
        BooleanExpression::RealGreater(a, b) => {
            evaluation_keeps_cells(*a, calc, state);
            evaluation_keeps_cells(*b, calc, real_value(*a, calc, state).1);
        },
        BooleanExpression::RealEqual(a, b) => {
            evaluation_keeps_cells(*a, calc, state);
            evaluation_keeps_cells(*b, calc, real_value(*a, calc, state).1);
        },
        BooleanExpression::RealNotEqual(a, b) => {
            evaluation_keeps_cells(*a, calc, state);
            evaluation_keeps_cells(*b, calc, real_value(*a, calc, state).1);
        },
        BooleanExpression::StringEqual(a, b) => {
            string_keeps_cells(*a, calc, state);
            string_keeps_cells(*b, calc, string_value(*a, calc, state).1);
        },
        BooleanExpression::StringNotEqual(a, b) => {
            string_keeps_cells(*a, calc, state);
            string_keeps_cells(*b, calc, string_value(*a, calc, state).1);
        },
        BooleanExpression::And(a, b) => {
            boolean_keeps_cells(*a, calc, state);
            boolean_keeps_cells(*b, calc, boolean_value(*a, calc, state).1);
        },
        BooleanExpression::Or(a, b) => {
            boolean_keeps_cells(*a, calc, state);
            boolean_keeps_cells(*b, calc, boolean_value(*a, calc, state).1);
        },
    }
}

/// Evaluating a string expression makes no cell and removes none.
pub proof fn string_keeps_cells<F: Fn(Operation, Real, Real) -> Real>(
    expression: StringExpression,
    calc: F,
    state: State,
)
    ensures
        same_cells(state.memory, string_value(expression, calc, state).1.memory),
    decreases expression,
{
    match expression {
        StringExpression::Const(_) => {},
        StringExpression::Reference(_) => {},
        StringExpression::Print(a) => string_keeps_cells(*a, calc, state),
        StringExpression::Add(a, b) => {
            string_keeps_cells(*a, calc, state);
            string_keeps_cells(*b, calc, string_value(*a, calc, state).1);
        },
    }
}

/// Evaluating a sound expression makes no cell and removes none.
pub proof fn sound_keeps_cells<F: Fn(Operation, Real, Real) -> Real>(
    expression: SoundExpression,
    calc: F,
    state: State,
)
    ensures
        same_cells(state.memory, sound_value(expression, calc, state).1.memory),
    decreases expression,
{
    match expression {
        SoundExpression::Reference(_) => {},
        SoundExpression::Play(a) => sound_keeps_cells(*a, calc, state),
        SoundExpression::Real(a) => evaluation_keeps_cells(a, calc, state),
        SoundExpression::Minus(a) => sound_keeps_cells(*a, calc, state),
        SoundExpression::Reciprocal(a) => sound_keeps_cells(*a, calc, state),
        SoundExpression::Add(a, b) => {
            sound_keeps_cells(*a, calc, state);
            sound_keeps_cells(*b, calc, sound_value(*a, calc, state).1);
        },
        SoundExpression::Sub(a, b) => {
            sound_keeps_cells(*a, calc, state);
            sound_keeps_cells(*b, calc, sound_value(*a, calc, state).1);
        },
        SoundExpression::Mul(a, b) => {
            sound_keeps_cells(*a, calc, state);
            sound_keeps_cells(*b, calc, sound_value(*a, calc, state).1);
        },
        SoundExpression::Div(a, b) => {
            sound_keeps_cells(*a, calc, state);
            sound_keeps_cells(*b, calc, sound_value(*a, calc, state).1);
        },
        SoundExpression::Rem(a, b) => {
            sound_keeps_cells(*a, calc, state);
            sound_keeps_cells(*b, calc, sound_value(*a, calc, state).1);
        },
        SoundExpression::Pow(a, b) => {
            sound_keeps_cells(*a, calc, state);
            sound_keeps_cells(*b, calc, sound_value(*a, calc, state).1);
        },
        SoundExpression::LeftShift(a, b) => {
            sound_keeps_cells(*a, calc, state);
            evaluation_keeps_cells(*b, calc, sound_value(*a, calc, state).1);
        },
        SoundExpression::RightShift(a, b) => {
            sound_keeps_cells(*a, calc, state);
            evaluation_keeps_cells(*b, calc, sound_value(*a, calc, state).1);
        },
        SoundExpression::Invocation(_, arguments) => arguments_keep_cells(arguments, calc, state),
        SoundExpression::Apply(_, arguments, sounds) => {
            bound_arguments_keep_cells(arguments, calc, state);
            bound_sounds_keep_cells(sounds, calc, arguments_bound(arguments, calc, state).1);
        },
    }
}

/// Evaluating the arguments of a call makes no cell and removes none.
pub proof fn arguments_keep_cells<F: Fn(Operation, Real, Real) -> Real>(
    arguments: List<Argument>,
    calc: F,
    state: State,
)
    ensures
        same_cells(state.memory, arguments_set(arguments, calc, state).memory),
    decreases arguments,
{
    match arguments {
        List::Nil => {},
        List::Cons(head, tail) => {
            match *head {
                Argument::Real(_, expression) => evaluation_keeps_cells(expression, calc, state),
                Argument::Boolean(_, expression) => boolean_keeps_cells(expression, calc, state),
                Argument::Sound(_, expression) => sound_keeps_cells(expression, calc, state),
                Argument::String(_, expression) => string_keeps_cells(expression, calc, state),
            }
            arguments_keep_cells(*tail, calc, argument_set(*head, calc, state));
        },
    }
}

/// Evaluating the arguments of an applied function makes no cell and
/// removes none.
pub proof fn bound_arguments_keep_cells<F: Fn(Operation, Real, Real) -> Real>(
    arguments: List<Argument>,
    calc: F,
    state: State,
)
    ensures
        same_cells(state.memory, arguments_bound(arguments, calc, state).1.memory),
    decreases arguments,
{
    match arguments {
        List::Nil => {},
        List::Cons(head, tail) => match *head {
            Argument::Real(_, expression) => {
                evaluation_keeps_cells(expression, calc, state);
                bound_arguments_keep_cells(*tail, calc, real_value(expression, calc, state).1);
            },
            Argument::Boolean(_, expression) => {
                boolean_keeps_cells(expression, calc, state);
                bound_arguments_keep_cells(*tail, calc, boolean_value(expression, calc, state).1);
            },
            Argument::Sound(_, expression) => {
                sound_keeps_cells(expression, calc, state);
                bound_arguments_keep_cells(*tail, calc, sound_value(expression, calc, state).1);
            },
            Argument::String(cell, expression) => {
                string_keeps_cells(expression, calc, state);
                let first = string_value(expression, calc, state);
                bound_arguments_keep_cells(
                    *tail,
                    calc,
                    State {
                        memory: first.1.memory.with_string(cell, first.0),
                        output: first.1.output,
                    },
                );
            },
        },
    }
}

/// Evaluating the sounds that a function is applied to makes no cell and
/// removes none.
pub proof fn bound_sounds_keep_cells<F: Fn(Operation, Real, Real) -> Real>(
    sounds: List<(usize, SoundExpression)>,
    calc: F,
    state: State,
)
    ensures
        same_cells(state.memory, sounds_bound(sounds, calc, state).1.memory),
    decreases sounds,
{
    match sounds {
        List::Nil => {},
        List::Cons(head, tail) => {
            sound_keeps_cells(head.1, calc, state);
            bound_sounds_keep_cells(*tail, calc, sound_value(head.1, calc, state).1);
        },
    }
}

/// Evaluating an expression of any type makes no cell and removes none.
pub proof fn effect_keeps_cells<F: Fn(Operation, Real, Real) -> Real>(
    expression: Expression,
    calc: F,
    state: State,
)
    ensures
        same_cells(state.memory, effect(expression, calc, state).memory),
        effect(expression, calc, state) == value_of(expression, calc, state).1,
{
    match expression {
        Expression::Real(a) => evaluation_keeps_cells(a, calc, state),
        Expression::Boolean(a) => boolean_keeps_cells(a, calc, state),
        Expression::Sound(a) => sound_keeps_cells(a, calc, state),
        Expression::String(a) => string_keeps_cells(a, calc, state),
        Expression::Void(VoidExpression::Const) => {},
        Expression::Void(VoidExpression::Invocation(_, arguments)) => arguments_keep_cells(
            arguments,
            calc,
            state,
        ),
    }
}

/// Running a statement makes no cell and removes none.
pub proof fn running_keeps_cells<F: Fn(Operation, Real, Real) -> Real>(
    statement: Statement,
    calc: F,
    state: State,
    fuel: nat,
)
    ensures
        same_cells(state.memory, ran(statement, calc, state, fuel).1.memory),
    decreases statement, fuel + 1,
{
    match statement {
        Statement::Expression(None) => {},
        Statement::Expression(Some(expression)) => effect_keeps_cells(expression, calc, state),
        Statement::RealSubstitution(_, expression) => evaluation_keeps_cells(
            expression,
            calc,
            state,
        ),
        Statement::BooleanSubstitution(_, expression) => boolean_keeps_cells(
            expression,
            calc,
            state,
        ),
        Statement::SoundSubstitution(_, expression) => sound_keeps_cells(expression, calc, state),
        Statement::StringSubstitution(_, expression) => string_keeps_cells(
            expression,
            calc,
            state,
        ),
        Statement::While(_, _) => rounds_keep_cells(statement, calc, state, fuel, fuel),
        Statement::If(condition, then, otherwise) => {
            boolean_keeps_cells(condition, calc, state);
            let test = boolean_value(condition, calc, state);
            if test.0 {
                running_keeps_cells(*then, calc, test.1, fuel);
            } else if let Some(otherwise) = otherwise {
                running_keeps_cells(*otherwise, calc, test.1, fuel);
            }
        },
        Statement::Block(statements) => all_keep_cells(statements, calc, state, fuel),
        Statement::Break => {},
        Statement::Continue => {},
        Statement::Return(expression) => effect_keeps_cells(expression, calc, state),
    }
}

/// The rounds of a loop make no cell and remove none.
pub proof fn rounds_keep_cells<F: Fn(Operation, Real, Real) -> Real>(
    statement: Statement,
    calc: F,
    state: State,
    fuel: nat,
    left: nat,
)
    ensures
        same_cells(state.memory, looped(statement, calc, state, fuel, left).1.memory),
    decreases statement, left,
{
    if let Statement::While(condition, body) = statement {
        boolean_keeps_cells(condition, calc, state);
        let test = boolean_value(condition, calc, state);
        if test.0 && left > 0 {
            running_keeps_cells(*body, calc, test.1, fuel);
            let round = ran(*body, calc, test.1, fuel);
            rounds_keep_cells(statement, calc, round.1, fuel, (left - 1) as nat);
        }
    }
}

/// The statements of a block make no cell and remove none.
pub proof fn all_keep_cells<F: Fn(Operation, Real, Real) -> Real>(
    statements: List<Statement>,
    calc: F,
    state: State,
    fuel: nat,
)
    ensures
        same_cells(state.memory, ran_all(statements, calc, state, fuel).1.memory),
    decreases statements, fuel + 1,
{
    if let List::Cons(head, tail) = statements {
        running_keeps_cells(*head, calc, state, fuel);
        let first = ran(*head, calc, state, fuel);
        if first.0 is Normal {
            all_keep_cells(*tail, calc, first.1, fuel);
        }
    }
}

/// `s << x` is `s` moved earlier by `x`, and `s >> x` is `s` moved earlier
/// by `-x`: the left operand is evaluated first, then the right one.
pub proof fn shift_operators<F: Fn(Operation, Real, Real) -> Real>(
    sound: SoundExpression,
    time: RealExpression,
    calc: F,
    state: State,
)
    ensures
        ({
            let s = sound_value(sound, calc, state);
            let x = real_value(time, calc, s.1);
            &&& sound_value(SoundExpression::LeftShift(Box::new(sound), Box::new(time)), calc, state)
                == (shifted(s.0, x.0, calc), x.1)
            &&& sound_value(
                SoundExpression::RightShift(Box::new(sound), Box::new(time)),
                calc,
                state,
            ) == (shifted(s.0, x.0.negated(), calc), x.1)
        }),
{
}

/// `a == b` on reals is what equality within the tolerance says of their
/// values, and `a != b` what inequality says. So two expressions of one
/// value are equal wherever the arithmetic gives a zero for the difference
/// of that value and itself, and `!=` is the negation of `==` wherever the
/// difference of the values is a number.
pub proof fn real_comparisons<F: Fn(Operation, Real, Real) -> Real>(
    a: RealExpression,
    b: RealExpression,
    calc: F,
    state: State,
)
    ensures
        ({
            let x = real_value(a, calc, state);
            let y = real_value(b, calc, x.1);
            let equal = boolean_value(
                BooleanExpression::RealEqual(Box::new(a), Box::new(b)),
                calc,
                state,
            );
            let unequal = boolean_value(
                BooleanExpression::RealNotEqual(Box::new(a), Box::new(b)),
                calc,
                state,
            );
            &&& equal == (close(calc, x.0, y.0), y.1)
            &&& unequal == (apart(calc, x.0, y.0), y.1)
            &&& x.0 == y.0 && result_of(calc, Operation::Subtract, x.0, x.0).magnitude() == 0
                ==> equal.0
            &&& !result_of(calc, Operation::Subtract, x.0, y.0).is_nan() ==> unequal.0 == !equal.0
        }),
{
}

/// A real that meets a sound in an arithmetic operator stands for the
/// sound that is constant at the value of the real: `s + r` is the sum of
/// `s` and that constant, and so has the same samples.
pub proof fn real_operand_is_constant_sound<F: Fn(Operation, Real, Real) -> Real>(
    sound: SoundExpression,
    number: RealExpression,
    calc: F,
    state: State,
    range: Range,
)
    ensures
        binary(
            Binary::Arithmetic(Arithmetic::Add),
            (Expression::Sound(sound), range),
            (Expression::Real(number), range),
        ) == Ok::<Expression, Error>(
            Expression::Sound(
                SoundExpression::Add(Box::new(sound), Box::new(SoundExpression::Real(number))),
            ),
        ),
        ({
            let s = sound_value(sound, calc, state);
            let r = real_value(number, calc, s.1);
            sound_value(
                SoundExpression::Add(Box::new(sound), Box::new(SoundExpression::Real(number))),
                calc,
                state,
            ) == (Sound::Add(Box::new(s.0), Box::new(Sound::Const(r.0))), r.1)
        }),
{
    reveal(binary);
    reveal_with_fuel(sound_value, 2);
}

/// A block ends with the first of its statements that does not end
/// normally, and nothing behind that one runs.
pub proof fn block_ends_at_first_signal<F: Fn(Operation, Real, Real) -> Real>(
    first: Statement,
    others: List<Statement>,
    calc: F,
    state: State,
    fuel: nat,
)
    ensures
        ({
            let begun = ran(first, calc, state, fuel);
            let whole = ran(
                Statement::Block(List::Cons(Box::new(first), Box::new(others))),
                calc,
                state,
                fuel,
            );
            if begun.0 is Normal {
                whole == ran(Statement::Block(others), calc, begun.1, fuel)
            } else {
                whole == begun
            }
        }),
{
    let block = List::Cons(Box::new(first), Box::new(others));
    assert(ran(Statement::Block(block), calc, state, fuel) == ran_all(block, calc, state, fuel));
    assert(ran(Statement::Block(others), calc, ran(first, calc, state, fuel).1, fuel) == ran_all(
        others,
        calc,
        ran(first, calc, state, fuel).1,
        fuel,
    ));
}

/// A loop never ends with a `break` or a `continue`: it takes both.
pub proof fn loop_takes_break_and_continue<F: Fn(Operation, Real, Real) -> Real>(
    statement: Statement,
    calc: F,
    state: State,
    fuel: nat,
)
    requires
        statement is While,
    ensures
        !(ran(statement, calc, state, fuel).0 is Break),
        !(ran(statement, calc, state, fuel).0 is Continue),
{
    rounds_take_break_and_continue(statement, calc, state, fuel, fuel);
}

/// The rounds of a loop never end with a `break` or a `continue`.
pub proof fn rounds_take_break_and_continue<F: Fn(Operation, Real, Real) -> Real>(
    statement: Statement,
    calc: F,
    state: State,
    fuel: nat,
    left: nat,
)
    requires
        statement is While,
    ensures
        !(looped(statement, calc, state, fuel, left).0 is Break),
        !(looped(statement, calc, state, fuel, left).0 is Continue),
    decreases left,
{
    if let Statement::While(condition, body) = statement {
        let test = boolean_value(condition, calc, state);
        if test.0 && left > 0 {
            let round = ran(*body, calc, test.1, fuel);
            rounds_take_break_and_continue(statement, calc, round.1, fuel, (left - 1) as nat);
        }
    }
}

/// Evaluates an argument and writes its value to its cell.
pub fn set_argument<F: Fn(Operation, Real, Real) -> Real>(
    argument: &Argument,
    calc: &F,
    store: &mut Store,
    output: &mut Output,
)
    requires
        lawful(*calc),
    ensures
        final(store)@ == argument_set(*argument, *calc, State { memory: old(store)@, output: old(output)@ }).memory,
        final(output)@ == argument_set(*argument, *calc, State { memory: old(store)@, output: old(output)@ }).output,
    decreases argument,
{
    match argument {
        Argument::Real(cell, expression) => {
            let value = expression.evaluate(calc, store, output);
            store.write_real(*cell, value);
        },
        Argument::Boolean(cell, expression) => {
            let value = expression.evaluate(calc, store, output);
            store.write_boolean(*cell, value);
        },
        Argument::Sound(cell, expression) => {
            let value = expression.evaluate(calc, store, output);
            store.write_sound(*cell, value);
        },
        Argument::String(cell, expression) => {
            let value = expression.evaluate(calc, store, output);
            store.write_string(*cell, value);
        },
    }
}

/// Evaluates the arguments of a call and writes each to its cell, one
/// after the other.
pub fn set_arguments<F: Fn(Operation, Real, Real) -> Real>(
    arguments: &List<Argument>,
    calc: &F,
    store: &mut Store,
    output: &mut Output,
)
    requires
        lawful(*calc),
    ensures
        final(store)@ == arguments_set(*arguments, *calc, State { memory: old(store)@, output: old(output)@ }).memory,
        final(output)@ == arguments_set(*arguments, *calc, State { memory: old(store)@, output: old(output)@ }).output,
    decreases arguments,
{
    match arguments {
        List::Nil => {},
        List::Cons(head, tail) => {
            set_argument(head, calc, store, output);
            set_arguments(tail, calc, store, output);
        },
    }
}

/// Evaluates the arguments of a function that is applied to sounds.
pub fn bind_arguments<F: Fn(Operation, Real, Real) -> Real>(
    arguments: &List<Argument>,
    calc: &F,
    store: &mut Store,
    output: &mut Output,
) -> (bound: List<sound::Argument>)
    requires
        lawful(*calc),
    ensures
        bound == arguments_bound(*arguments, *calc, State { memory: old(store)@, output: old(output)@ }).0,
        final(store)@ == arguments_bound(*arguments, *calc, State { memory: old(store)@, output: old(output)@ }).1.memory,
        final(output)@ == arguments_bound(*arguments, *calc, State { memory: old(store)@, output: old(output)@ }).1.output,
    decreases arguments,
{
    match arguments {
        List::Nil => List::Nil,
        List::Cons(head, tail) => match &**head {
            Argument::Real(cell, expression) => {
                let value = expression.evaluate(calc, store, output);
                let rest = bind_arguments(tail, calc, store, output);
                List::Cons(Box::new(sound::Argument::Real(*cell, value)), Box::new(rest))
            },
            Argument::Boolean(cell, expression) => {
                let value = expression.evaluate(calc, store, output);
                let rest = bind_arguments(tail, calc, store, output);
                List::Cons(Box::new(sound::Argument::Boolean(*cell, value)), Box::new(rest))
            },
            Argument::Sound(cell, expression) => {
                let value = expression.evaluate(calc, store, output);
                let rest = bind_arguments(tail, calc, store, output);
                List::Cons(Box::new(sound::Argument::Sound(*cell, value)), Box::new(rest))
            },
            Argument::String(cell, expression) => {
                let value = expression.evaluate(calc, store, output);
                store.write_string(*cell, value);
                bind_arguments(tail, calc, store, output)
            },
        },
    }
}

/// Evaluates the sounds that a function is applied to.
pub fn bind_sounds<F: Fn(Operation, Real, Real) -> Real>(
    sounds: &List<(usize, SoundExpression)>,
    calc: &F,
    store: &mut Store,
    output: &mut Output,
) -> (bound: List<(usize, Sound)>)
    requires
        lawful(*calc),
    ensures
        bound == sounds_bound(*sounds, *calc, State { memory: old(store)@, output: old(output)@ }).0,
        final(store)@ == sounds_bound(*sounds, *calc, State { memory: old(store)@, output: old(output)@ }).1.memory,
        final(output)@ == sounds_bound(*sounds, *calc, State { memory: old(store)@, output: old(output)@ }).1.output,
    decreases sounds,
{
    match sounds {
        List::Nil => List::Nil,
        List::Cons(head, tail) => {
            let value = head.1.evaluate(calc, store, output);
            let rest = bind_sounds(tail, calc, store, output);
            List::Cons(Box::new((head.0, value)), Box::new(rest))
        },
    }
}

impl RealExpression {
    /// Evaluates the expression: gives its value, clamped to the finite
    /// range.
    pub fn evaluate<F: Fn(Operation, Real, Real) -> Real>(
        &self,
        calc: &F,
        store: &mut Store,
        output: &mut Output,
    ) -> (value: Real)
        requires
            lawful(*calc),
        ensures
            value == real_value(*self, *calc, State { memory: old(store)@, output: old(output)@ }).0,
            final(store)@ == real_value(*self, *calc, State { memory: old(store)@, output: old(output)@ }).1.memory,
            final(output)@ == real_value(*self, *calc, State { memory: old(store)@, output: old(output)@ }).1.output,
            !value.is_infinite(),
        decreases self,
    {
        match self {
            RealExpression::Const(value) => value.clamp(),
            RealExpression::Reference(cell) => store.read_real(*cell).clamp(),
            RealExpression::Print(a) => {
                let value = a.evaluate(calc, store, output);
                output.push(Effect::Real(value));
                value.clamp()
            },
            RealExpression::Minus(a) => a.evaluate(calc, store, output).negate().clamp(),
            RealExpression::Reciprocal(a) => {
                let value = a.evaluate(calc, store, output);
                apply(calc, Operation::Reciprocal, value, Real { bits: 0 }).clamp()
            },
            RealExpression::Add(a, b) => {
                let left = a.evaluate(calc, store, output);
                let right = b.evaluate(calc, store, output);
                apply(calc, Operation::Add, left, right).clamp()
            },
            RealExpression::Sub(a, b) => {
                let left = a.evaluate(calc, store, output);
                let right = b.evaluate(calc, store, output);
                apply(calc, Operation::Subtract, left, right).clamp()
            },
            RealExpression::Mul(a, b) => {
                let left = a.evaluate(calc, store, output);
                let right = b.evaluate(calc, store, output);
                apply(calc, Operation::Multiply, left, right).clamp()
            },
            RealExpression::Div(a, b) => {
                let left = a.evaluate(calc, store, output);
                let right = b.evaluate(calc, store, output);
                apply(calc, Operation::Divide, left, right).clamp()
            },
            RealExpression::Rem(a, b) => {
                let left = a.evaluate(calc, store, output);
                let right = b.evaluate(calc, store, output);
                apply(calc, Operation::Remainder, left, right).clamp()
            },
            RealExpression::Pow(a, b) => {
                let left = a.evaluate(calc, store, output);
                let right = b.evaluate(calc, store, output);
                apply(calc, Operation::Power, left, right).clamp()
            },
            RealExpression::Invocation(function, arguments) => {
                set_arguments(arguments, calc, store, output);
                function.evaluate(calc, store).clamp()
            },
        }
    }
}

impl BooleanExpression {
    /// Evaluates the expression.
    pub fn evaluate<F: Fn(Operation, Real, Real) -> Real>(
        &self,
        calc: &F,
        store: &mut Store,
        output: &mut Output,
    ) -> (value: bool)
        requires
            lawful(*calc),
        ensures
            value == boolean_value(*self, *calc, State { memory: old(store)@, output: old(output)@ }).0,
            final(store)@ == boolean_value(*self, *calc, State { memory: old(store)@, output: old(output)@ }).1.memory,
            final(output)@ == boolean_value(*self, *calc, State { memory: old(store)@, output: old(output)@ }).1.output,
        decreases self,
    {
        match self {
            BooleanExpression::Reference(cell) => store.read_boolean(*cell),
            BooleanExpression::Print(a) => {
                let value = a.evaluate(calc, store, output);
                output.push(Effect::Boolean(value));
                value
            },
            BooleanExpression::Not(a) => !a.evaluate(calc, store, output),
            BooleanExpression::RealLess(a, b) => {
                let left = a.evaluate(calc, store, output);
                let right = b.evaluate(calc, store, output);
                left.less(right)
            },
            BooleanExpression::RealGreater(a, b) => {
                let left = a.evaluate(calc, store, output);
                let right = b.evaluate(calc, store, output);
                left.greater(right)
            },
            BooleanExpression::RealEqual(a, b) => {
                let left = a.evaluate(calc, store, output);
                let right = b.evaluate(calc, store, output);
                nearly_equal(calc, left, right)
            },
            BooleanExpression::RealNotEqual(a, b) => {
                let left = a.evaluate(calc, store, output);
                let right = b.evaluate(calc, store, output);
                clearly_apart(calc, left, right)
            },
            BooleanExpression::StringEqual(a, b) => {
                let left = a.evaluate(calc, store, output);
                let right = b.evaluate(calc, store, output);
                left == right
            },
            BooleanExpression::StringNotEqual(a, b) => {
                let left = a.evaluate(calc, store, output);
                let right = b.evaluate(calc, store, output);
                !(left == right)
            },
            BooleanExpression::And(a, b) => {
                if a.evaluate(calc, store, output) {
                    b.evaluate(calc, store, output)
                } else {
                    false
                }
            },
            BooleanExpression::Or(a, b) => {
                if a.evaluate(calc, store, output) {
                    true
                } else {
                    b.evaluate(calc, store, output)
                }
            },
        }
    }
}

impl StringExpression {
    /// Evaluates the expression.
    pub fn evaluate<F: Fn(Operation, Real, Real) -> Real>(
        &self,
        calc: &F,
        store: &mut Store,
        output: &mut Output,
    ) -> (value: String)
        requires
            lawful(*calc),
        ensures
            value@ == string_value(*self, *calc, State { memory: old(store)@, output: old(output)@ }).0,
            final(store)@ == string_value(*self, *calc, State { memory: old(store)@, output: old(output)@ }).1.memory,
            final(output)@ == string_value(*self, *calc, State { memory: old(store)@, output: old(output)@ }).1.output,
        decreases self,
    {
        match self {
            StringExpression::Const(text) => text.clone(),
            StringExpression::Reference(cell) => store.read_string(*cell),
            StringExpression::Print(a) => {
                let value = a.evaluate(calc, store, output);
                output.push(Effect::Text(value.clone()));
                value
            },
            StringExpression::Add(a, b) => {
                let left = a.evaluate(calc, store, output);
                let right = b.evaluate(calc, store, output);
                left.concat(right.as_str())
            },
        }
    }
}

impl SoundExpression {
    /// Evaluates the expression: builds the sound that it describes.
    pub fn evaluate<F: Fn(Operation, Real, Real) -> Real>(
        &self,
        calc: &F,
        store: &mut Store,
        output: &mut Output,
    ) -> (value: Sound)
        requires
            lawful(*calc),
        ensures
            value == sound_value(*self, *calc, State { memory: old(store)@, output: old(output)@ }).0,
            final(store)@ == sound_value(*self, *calc, State { memory: old(store)@, output: old(output)@ }).1.memory,
            final(output)@ == sound_value(*self, *calc, State { memory: old(store)@, output: old(output)@ }).1.output,
        decreases self,
    {
        match self {
            SoundExpression::Reference(cell) => store.read_sound(*cell),
            SoundExpression::Play(a) => a.evaluate(calc, store, output),
            SoundExpression::Real(a) => Sound::Const(a.evaluate(calc, store, output)),
            SoundExpression::Minus(a) => Sound::Minus(Box::new(a.evaluate(calc, store, output))),
            SoundExpression::Reciprocal(a) => Sound::Reciprocal(
                Box::new(a.evaluate(calc, store, output)),
            ),
            SoundExpression::Add(a, b) => {
                let left = a.evaluate(calc, store, output);
                let right = b.evaluate(calc, store, output);
                Sound::Add(Box::new(left), Box::new(right))
            },
            SoundExpression::Sub(a, b) => {
                let left = a.evaluate(calc, store, output);
                let right = b.evaluate(calc, store, output);
                Sound::Sub(Box::new(left), Box::new(right))
            },
            SoundExpression::Mul(a, b) => {
                let left = a.evaluate(calc, store, output);
                let right = b.evaluate(calc, store, output);
                Sound::Mul(Box::new(left), Box::new(right))
            },
            SoundExpression::Div(a, b) => {
                let left = a.evaluate(calc, store, output);
                let right = b.evaluate(calc, store, output);
                Sound::Div(Box::new(left), Box::new(right))
            },
            SoundExpression::Rem(a, b) => {
                let left = a.evaluate(calc, store, output);
                let right = b.evaluate(calc, store, output);
                Sound::Rem(Box::new(left), Box::new(right))
            },
            SoundExpression::Pow(a, b) => {
                let left = a.evaluate(calc, store, output);
                let right = b.evaluate(calc, store, output);
                Sound::Pow(Box::new(left), Box::new(right))
            },
            SoundExpression::LeftShift(a, b) => {
                let left = a.evaluate(calc, store, output);
                let right = b.evaluate(calc, store, output);
                left.shift(right, calc)
            },
            SoundExpression::RightShift(a, b) => {
                let left = a.evaluate(calc, store, output);
                let right = b.evaluate(calc, store, output);
                left.shift(right.negate(), calc)
            },
            SoundExpression::Invocation(function, arguments) => {
                set_arguments(arguments, calc, store, output);
                function.evaluate(calc, store)
            },
            SoundExpression::Apply(function, arguments, sounds) => {
                let fixed = bind_arguments(arguments, calc, store, output);
                let fed = bind_sounds(sounds, calc, store, output);
                Sound::Apply(*function, fixed, fed)
            },
        }
    }
}

impl VoidExpression {
    /// Evaluates the expression.
    pub fn evaluate<F: Fn(Operation, Real, Real) -> Real>(
        &self,
        calc: &F,
        store: &mut Store,
        output: &mut Output,
    )
        requires
            lawful(*calc),
        ensures
            final(store)@ == void_effect(*self, *calc, State { memory: old(store)@, output: old(output)@ }).memory,
            final(output)@ == void_effect(*self, *calc, State { memory: old(store)@, output: old(output)@ }).output,
    {
        match self {
            VoidExpression::Const => {},
            VoidExpression::Invocation(function, arguments) => {
                set_arguments(arguments, calc, store, output);
                function.evaluate(store, output);
            },
        }
    }
}

impl Expression {
    /// Evaluates the expression: gives its value.
    pub fn value<F: Fn(Operation, Real, Real) -> Real>(
        &self,
        calc: &F,
        store: &mut Store,
        output: &mut Output,
    ) -> (value: Datum)
        requires
            lawful(*calc),
        ensures
            value@ == value_of(*self, *calc, State { memory: old(store)@, output: old(output)@ }).0,
            final(store)@ == value_of(
                *self,
                *calc,
                State { memory: old(store)@, output: old(output)@ },
            ).1.memory,
            final(output)@ == value_of(
                *self,
                *calc,
                State { memory: old(store)@, output: old(output)@ },
            ).1.output,
    {
        match self {
            Expression::Real(a) => Datum::Real(a.evaluate(calc, store, output)),
            Expression::Boolean(a) => Datum::Boolean(a.evaluate(calc, store, output)),
            Expression::Sound(a) => Datum::Sound(a.evaluate(calc, store, output)),
            Expression::String(a) => Datum::String(a.evaluate(calc, store, output)),
            Expression::Void(a) => {
                a.evaluate(calc, store, output);
                Datum::Void
            },
        }
    }

    /// Evaluates the expression and drops its value.
    pub fn evaluate<F: Fn(Operation, Real, Real) -> Real>(
        &self,
        calc: &F,
        store: &mut Store,
        output: &mut Output,
    )
        requires
            lawful(*calc),
        ensures
            final(store)@ == effect(*self, *calc, State { memory: old(store)@, output: old(output)@ }).memory,
            final(output)@ == effect(*self, *calc, State { memory: old(store)@, output: old(output)@ }).output,
    {
        match self {
            Expression::Real(a) => {
                a.evaluate(calc, store, output);
            },
            Expression::Boolean(a) => {
                a.evaluate(calc, store, output);
            },
            Expression::Sound(a) => {
                a.evaluate(calc, store, output);
            },
            Expression::String(a) => {
                a.evaluate(calc, store, output);
            },
            Expression::Void(a) => {
                a.evaluate(calc, store, output);
            },
        }
    }
}

/// Runs the statements of a block in order, up to the first that does not
/// end normally.
pub fn run_all<F: Fn(Operation, Real, Real) -> Real>(
    statements: &List<Statement>,
    calc: &F,
    store: &mut Store,
    output: &mut Output,
    fuel: u64,
) -> (signal: Signal)
    requires
        lawful(*calc),
    ensures
        signal@ == ran_all(*statements, *calc, State { memory: old(store)@, output: old(output)@ }, fuel as nat).0,
        final(store)@ == ran_all(*statements, *calc, State { memory: old(store)@, output: old(output)@ }, fuel as nat).1.memory,
        final(output)@ == ran_all(*statements, *calc, State { memory: old(store)@, output: old(output)@ }, fuel as nat).1.output,
    decreases statements, fuel + 1,
{
    match statements {
        List::Nil => Signal::Normal,
        List::Cons(head, tail) => {
            let first = head.run(calc, store, output, fuel);
            match first {
                Signal::Normal => run_all(tail, calc, store, output, fuel),
                _ => first,
            }
        },
    }
}

impl Statement {
    /// Runs the statement. No loop runs more than `fuel` rounds in one go.
    pub fn run<F: Fn(Operation, Real, Real) -> Real>(
        &self,
        calc: &F,
        store: &mut Store,
        output: &mut Output,
        fuel: u64,
    ) -> (signal: Signal)
        requires
            lawful(*calc),
        ensures
            signal@ == ran(*self, *calc, State { memory: old(store)@, output: old(output)@ }, fuel as nat).0,
            final(store)@ == ran(*self, *calc, State { memory: old(store)@, output: old(output)@ }, fuel as nat).1.memory,
            final(output)@ == ran(*self, *calc, State { memory: old(store)@, output: old(output)@ }, fuel as nat).1.output,
        decreases self, fuel + 1,
    {
        match self {
            Statement::Expression(None) => Signal::Normal,
            Statement::Expression(Some(expression)) => {
                expression.evaluate(calc, store, output);
                Signal::Normal
            },
            Statement::RealSubstitution(cell, expression) => {
                let value = expression.evaluate(calc, store, output);
                store.write_real(*cell, value);
                Signal::Normal
            },
            Statement::BooleanSubstitution(cell, expression) => {
                let value = expression.evaluate(calc, store, output);
                store.write_boolean(*cell, value);
                Signal::Normal
            },
            Statement::SoundSubstitution(cell, expression) => {
                let value = expression.evaluate(calc, store, output);
                store.write_sound(*cell, value);
                Signal::Normal
            },
            Statement::StringSubstitution(cell, expression) => {
                let value = expression.evaluate(calc, store, output);
                store.write_string(*cell, value);
                Signal::Normal
            },
            Statement::While(_, _) => self.run_loop(calc, store, output, fuel, fuel),
            Statement::If(condition, then, otherwise) => {
                if condition.evaluate(calc, store, output) {
                    then.run(calc, store, output, fuel)
                } else {
                    match otherwise {
                        Some(otherwise) => otherwise.run(calc, store, output, fuel),
                        None => Signal::Normal,
                    }
                }
            },
            Statement::Block(statements) => run_all(statements, calc, store, output, fuel),
            Statement::Break => Signal::Break,
            Statement::Continue => Signal::Continue,
            Statement::Return(expression) => Signal::Return(
                expression.value(calc, store, output),
            ),
        }
    }

    /// Runs a loop that may run `left` more rounds.
    pub fn run_loop<F: Fn(Operation, Real, Real) -> Real>(
        &self,
        calc: &F,
        store: &mut Store,
        output: &mut Output,
        fuel: u64,
        left: u64,
    ) -> (signal: Signal)
        requires
            lawful(*calc),
        ensures
            signal@ == looped(*self, *calc, State { memory: old(store)@, output: old(output)@ }, fuel as nat, left as nat).0,
            final(store)@ == looped(*self, *calc, State { memory: old(store)@, output: old(output)@ }, fuel as nat, left as nat).1.memory,
            final(output)@ == looped(*self, *calc, State { memory: old(store)@, output: old(output)@ }, fuel as nat, left as nat).1.output,
        decreases self, left,
    {
        match self {
            Statement::While(condition, body) => {
                if !condition.evaluate(calc, store, output) {
                    Signal::Normal
                } else if left == 0 {
                    Signal::Exhausted
                } else {
                    match body.run(calc, store, output, fuel) {
                        Signal::Break => Signal::Normal,
                        Signal::Exhausted => Signal::Exhausted,
                        Signal::Return(value) => Signal::Return(value),
                        _ => self.run_loop(calc, store, output, fuel, left - 1),
                    }
                }
            },
            _ => Signal::Normal,
        }
    }
}

} // verus!
