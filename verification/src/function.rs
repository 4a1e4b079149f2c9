//! The function table: what a name that is called stands for.

use vstd::prelude::*;
use crate::list::List;
use crate::number::{apply, lawful, result_of, Operation, Real, ONE};
use crate::output::{Effect, Event, Output};
use crate::program::{Argument, RealExpression};
use crate::sound::Sound;
use crate::store::{Memory, Store};
use crate::types::Type;
use crate::value::Value;

verus! {

/// A function that gives a real: an operation of the arithmetic on the
/// contents of one or two real cells.
#[derive(Debug, Clone, Copy, PartialEq, Eq, Structural)]
pub enum RealFunction {
    Primitive1(Operation, usize),
    Primitive2(Operation, usize, usize),
}

/// A function that gives a sound: one of the generators, with the real cells
/// that hold its parameters.
#[derive(Debug, Clone, Copy, PartialEq, Eq, Structural)]
pub enum SoundFunction {
    /// A sine wave; the cell holds the frequency.
    Sin(usize),
    /// A ramp; the cells hold the height that is reached and the time it
    /// takes.
    Linear(usize, usize),
    /// An exponential; the cell holds the time in which it grows by the
    /// factor e.
    Exp(usize),
}

/// A function that gives nothing.
#[derive(Debug, Clone, Copy, PartialEq, Eq, Structural)]
pub enum VoidFunction {
    /// Renders a sound to a file; the cells hold the sound, the duration in
    /// seconds, and the path.
    Write(usize, usize, usize),
}

/// The body of a function, by the type of what it gives.
#[derive(Debug, Clone, Copy, PartialEq, Eq, Structural)]
pub enum Body {
    Real(RealFunction),
    Sound(SoundFunction),
    Void(VoidFunction),
}

/// A function: its body, the cells of its positional arguments in order, and
/// its named arguments, each with its cell and the expression that gives its
/// value where a call leaves it out.
///
/// The cells belong to the function. A call writes its arguments into them
/// and the body reads them.
#[derive(Debug, PartialEq, Eq)]
pub struct Function {
    pub body: Body,
    pub arguments: List<Value>,
    pub named_arguments: List<(String, Argument)>,
}

impl Body {
    /// The type of what the function gives.
    pub open spec fn spec_ty(self) -> Type {
        match self {
            Body::Real(_) => Type::Real,
            Body::Sound(_) => Type::Sound,
            Body::Void(_) => Type::Void,
        }
    }

    /// The type of what the function gives.
    pub fn ty(&self) -> (ty: Type)
        ensures
            ty == self.spec_ty(),
    {
        match self {
            Body::Real(_) => Type::Real,
            Body::Sound(_) => Type::Sound,
            Body::Void(_) => Type::Void,
        }
    }
}

impl RealFunction {
    /// What the function gives for the arguments that stand in its cells.
    pub open spec fn value<F: Fn(Operation, Real, Real) -> Real>(self, calc: F, memory: Memory)
        -> Real {
        match self {
            RealFunction::Primitive1(op, x) => result_of(
                calc,
                op,
                memory.read_real(x),
                Real { bits: 0 },
            ),
            RealFunction::Primitive2(op, x, y) => result_of(
                calc,
                op,
                memory.read_real(x),
                memory.read_real(y),
            ),
        }
    }

    /// Computes the function on the arguments that stand in its cells.
    pub fn evaluate<F: Fn(Operation, Real, Real) -> Real>(&self, calc: &F, store: &Store) -> (value:
        Real)
        requires
            lawful(*calc),
        ensures
            value == self.value(*calc, store@),
    {
        match self {
            RealFunction::Primitive1(op, x) => apply(
                calc,
                *op,
                store.read_real(*x),
                Real { bits: 0 },
            ),
            RealFunction::Primitive2(op, x, y) => apply(
                calc,
                *op,
                store.read_real(*x),
                store.read_real(*y),
            ),
        }
    }
}

impl SoundFunction {
    /// The sound that the generator makes of the parameters in its cells: a
    /// sine of the given frequency that starts at zero, a ramp that reaches
    /// the given height after the given time, or an exponential that grows
    /// by the factor e in the given time.
    pub open spec fn value<F: Fn(Operation, Real, Real) -> Real>(self, calc: F, memory: Memory)
        -> Sound {
        match self {
            SoundFunction::Sin(frequency) => Sound::Sin {
                frequency: memory.read_real(frequency),
                phase: Real { bits: 0 },
            },
            SoundFunction::Linear(height, time) => Sound::Linear {
                slope: result_of(
                    calc,
                    Operation::Divide,
                    memory.read_real(height),
                    memory.read_real(time),
                ),
                intercept: Real { bits: 0 },
            },
            SoundFunction::Exp(time) => Sound::Exp {
                slope: result_of(
                    calc,
                    Operation::Reciprocal,
                    memory.read_real(time),
                    Real { bits: 0 },
                ),
                intercept: Real { bits: 0 },
            },
        }
    }

    /// Makes the sound of the parameters that stand in the cells.
    pub fn evaluate<F: Fn(Operation, Real, Real) -> Real>(&self, calc: &F, store: &Store) -> (value:
        Sound)
        requires
            lawful(*calc),
        ensures
            value == self.value(*calc, store@),
    {
        match self {
            SoundFunction::Sin(frequency) => Sound::Sin {
                frequency: store.read_real(*frequency),
                phase: Real { bits: 0 },
            },
            SoundFunction::Linear(height, time) => Sound::Linear {
                slope: apply(
                    calc,
                    Operation::Divide,
                    store.read_real(*height),
                    store.read_real(*time),
                ),
                intercept: Real { bits: 0 },
            },
            SoundFunction::Exp(time) => Sound::Exp {
                slope: apply(
                    calc,
                    Operation::Reciprocal,
                    store.read_real(*time),
                    Real { bits: 0 },
                ),
                intercept: Real { bits: 0 },
            },
        }
    }
}

impl VoidFunction {
    /// What the function asks of the outside for the arguments that stand in
    /// its cells.
    pub open spec fn request(self, memory: Memory) -> Event {
        match self {
            VoidFunction::Write(sound, seconds, path) => Event::Write {
                sound: memory.read_sound(sound),
                seconds: memory.read_real(seconds),
                path: memory.read_string(path),
            },
        }
    }

    /// Runs the function: it asks the outside to render the sound in its
    /// first cell, for the seconds in its second, to the file named in its
    /// third.
    pub fn evaluate(&self, store: &Store, output: &mut Output)
        ensures
            final(output)@ == old(output)@.push(self.request(store@)),
    {
        match self {
            VoidFunction::Write(sound, seconds, path) => {
                output.push(
                    Effect::Write {
                        sound: store.read_sound(*sound),
                        seconds: store.read_real(*seconds),
                        path: store.read_string(*path),
                    },
                );
            },
        }
    }
}

impl Function {
    /// A function of one real: an operation of the arithmetic with a new
    /// cell for its operand.
    pub fn primitive_real_1(fnc: Operation, store: &mut Store) -> (function: Function)
        ensures
            final(store)@ == old(store)@.with_new_real(),
            function == (Function {
                body: Body::Real(
                    RealFunction::Primitive1(fnc, old(store)@.reals.len() as usize),
                ),
                arguments: List::Cons(
                    Box::new(Value::Real(old(store)@.reals.len() as usize)),
                    Box::new(List::Nil),
                ),
                named_arguments: List::Nil,
            }),
    {
        let x = store.new_real();
        Function {
            body: Body::Real(RealFunction::Primitive1(fnc, x)),
            arguments: List::Cons(Box::new(Value::Real(x)), Box::new(List::Nil)),
            named_arguments: List::Nil,
        }
    }

    /// A function of two reals: an operation of the arithmetic with two new
    /// cells for its operands.
    pub fn primitive_real_2(fnc: Operation, store: &mut Store) -> (function: Function)
        ensures
            final(store)@ == old(store)@.with_new_real().with_new_real(),
            old(store)@.reals.len() + 1 <= usize::MAX,
            function == (Function {
                body: Body::Real(
                    RealFunction::Primitive2(
                        fnc,
                        old(store)@.reals.len() as usize,
                        (old(store)@.reals.len() + 1) as usize,
                    ),
                ),
                arguments: List::Cons(
                    Box::new(Value::Real(old(store)@.reals.len() as usize)),
                    Box::new(
                        List::Cons(
                            Box::new(Value::Real((old(store)@.reals.len() + 1) as usize)),
                            Box::new(List::Nil),
                        ),
                    ),
                ),
                named_arguments: List::Nil,
            }),
    {
        let x = store.new_real();
        let y = store.new_real();
        Function {
            body: Body::Real(RealFunction::Primitive2(fnc, x, y)),
            arguments: List::Cons(
                Box::new(Value::Real(x)),
                Box::new(List::Cons(Box::new(Value::Real(y)), Box::new(List::Nil))),
            ),
            named_arguments: List::Nil,
        }
    }

    /// The generator of sine waves, with a new cell for the frequency.
    pub fn sin(store: &mut Store) -> (function: Function)
        ensures
            final(store)@ == old(store)@.with_new_real(),
            function == (Function {
                body: Body::Sound(SoundFunction::Sin(old(store)@.reals.len() as usize)),
                arguments: List::Cons(
                    Box::new(Value::Real(old(store)@.reals.len() as usize)),
                    Box::new(List::Nil),
                ),
                named_arguments: List::Nil,
            }),
    {
        let x = store.new_real();
        Function {
            body: Body::Sound(SoundFunction::Sin(x)),
            arguments: List::Cons(Box::new(Value::Real(x)), Box::new(List::Nil)),
            named_arguments: List::Nil,
        }
    }

    /// The generator of exponentials, with a new cell for the time in which
    /// the sound grows by the factor e.
    pub fn exp(store: &mut Store) -> (function: Function)
        ensures
            final(store)@ == old(store)@.with_new_real(),
            function == (Function {
                body: Body::Sound(SoundFunction::Exp(old(store)@.reals.len() as usize)),
                arguments: List::Cons(
                    Box::new(Value::Real(old(store)@.reals.len() as usize)),
                    Box::new(List::Nil),
                ),
                named_arguments: List::Nil,
            }),
    {
        let x = store.new_real();
        Function {
            body: Body::Sound(SoundFunction::Exp(x)),
            arguments: List::Cons(Box::new(Value::Real(x)), Box::new(List::Nil)),
            named_arguments: List::Nil,
        }
    }

    /// The generator of ramps, with a new cell for the height and one for
    /// the time, which is the named argument `t` and is 1 where a call
    /// leaves it out.
    pub fn linear(store: &mut Store) -> (function: Function)
        ensures
            final(store)@ == old(store)@.with_new_real().with_new_real(),
            old(store)@.reals.len() + 1 <= usize::MAX,
            function.body == Body::Sound(
                SoundFunction::Linear(
                    old(store)@.reals.len() as usize,
                    (old(store)@.reals.len() + 1) as usize,
                ),
            ),
            function.arguments == List::Cons(
                Box::new(Value::Real(old(store)@.reals.len() as usize)),
                Box::new(List::<Value>::Nil),
            ),
            function.named_arguments matches List::Cons(named, rest) && named.0@ == "t"@ && named.1
                == Argument::Real(
                (old(store)@.reals.len() + 1) as usize,
                RealExpression::Const(Real { bits: ONE }),
            ) && *rest is Nil,
    {
        let height = store.new_real();
        let time = store.new_real();
        Function {
            body: Body::Sound(SoundFunction::Linear(height, time)),
            arguments: List::Cons(Box::new(Value::Real(height)), Box::new(List::Nil)),
            named_arguments: List::Cons(
                Box::new(
                    (
                        String::from_str("t"),
                        Argument::Real(time, RealExpression::Const(Real { bits: ONE })),
                    ),
                ),
                Box::new(List::Nil),
            ),
        }
    }

    /// The function that renders a sound to a file, with new cells for the
    /// sound, the duration in seconds and the path.
    pub fn write(store: &mut Store) -> (function: Function)
        ensures
            final(store)@ == old(store)@.with_new_sound().with_new_real().with_new_string(),
            function == (Function {
                body: Body::Void(
                    VoidFunction::Write(
                        old(store)@.sounds.len() as usize,
                        old(store)@.reals.len() as usize,
                        old(store)@.strings.len() as usize,
                    ),
                ),
                arguments: List::Cons(
                    Box::new(Value::Sound(old(store)@.sounds.len() as usize)),
                    Box::new(
                        List::Cons(
                            Box::new(Value::Real(old(store)@.reals.len() as usize)),
                            Box::new(
                                List::Cons(
                                    Box::new(Value::String(old(store)@.strings.len() as usize)),
                                    Box::new(List::Nil),
                                ),
                            ),
                        ),
                    ),
                ),
                named_arguments: List::Nil,
            }),
    {
        let sound = store.new_sound();
        let time = store.new_real();
        let path = store.new_string();
        Function {
            body: Body::Void(VoidFunction::Write(sound, time, path)),
            arguments: List::Cons(
                Box::new(Value::Sound(sound)),
                Box::new(
                    List::Cons(
                        Box::new(Value::Real(time)),
                        Box::new(List::Cons(Box::new(Value::String(path)), Box::new(List::Nil))),
                    ),
                ),
            ),
            named_arguments: List::Nil,
        }
    }
}

} // verus!
