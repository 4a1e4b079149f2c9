//! Sounds: lazy signals that give a value for every point in time.
//!
//! A sound is a small tree of generators and combinators. It knows nothing of
//! sample rates: those come in only where a sound is turned into a stream of
//! samples.

use vstd::prelude::*;
use crate::function::RealFunction;
use crate::list::{counted, List};
use crate::number::{
    apply, convert, lawful, real_of_integer, result_of, Operation, Real, ONE, TAU,
};
use crate::store::{Memory, Store};

verus! {

/// An argument of a function that a sound applies: the cell of the function
/// that takes it and the value, which is the same for every sample.
#[derive(Debug, PartialEq, Eq)]
pub enum Argument {
    Real(usize, Real),
    Boolean(usize, bool),
    Sound(usize, Sound),
}

/// A sound. The generators, with their value at the time `t` in seconds:
///
/// | generator | value |
/// |---|---|
/// | `Const(v)` | v |
/// | `Linear { slope, intercept }` | slope · t + intercept |
/// | `Sin { frequency, phase }` | sin(2π · frequency · t + phase) |
/// | `Exp { slope, intercept }` | exp(slope · t + intercept) |
/// | `Begin(t0)` | 0 before t0, then 1 |
/// | `End(t0)` | 1 before t0, then 0 |
/// | `Rand` | a random number of [0, 1), a new one for each sample |
///
/// The combinators work point by point. `Apply` gives, at each point, what a
/// function of reals gives once the values of the sounds at that point stand
/// in its cells.
#[derive(Debug, PartialEq, Eq)]
pub enum Sound {
    Const(Real),
    Linear { slope: Real, intercept: Real },
    Sin { frequency: Real, phase: Real },
    Exp { slope: Real, intercept: Real },
    Begin(Real),
    End(Real),
    Rand,
    Minus(Box<Sound>),
    Reciprocal(Box<Sound>),
    Add(Box<Sound>, Box<Sound>),
    Sub(Box<Sound>, Box<Sound>),
    Mul(Box<Sound>, Box<Sound>),
    Div(Box<Sound>, Box<Sound>),
    Pow(Box<Sound>, Box<Sound>),
    Rem(Box<Sound>, Box<Sound>),
    Apply(RealFunction, List<Argument>, List<(usize, Sound)>),
}

/// The sound that is zero at all times.
pub open spec fn silence() -> Sound {
    Sound::Const(Real { bits: 0 })
}

impl Argument {
    /// A copy of the argument.
    pub fn duplicate(&self) -> (copy: Argument)
        ensures
            copy == *self,
        decreases self,
    {
        match self {
            Argument::Real(cell, value) => Argument::Real(*cell, *value),
            Argument::Boolean(cell, value) => Argument::Boolean(*cell, *value),
            Argument::Sound(cell, value) => Argument::Sound(*cell, value.duplicate()),
        }
    }
}

/// A copy of a list of arguments.
pub fn duplicate_arguments(arguments: &List<Argument>) -> (copy: List<Argument>)
    ensures
        copy == *arguments,
    decreases arguments,
{
    match arguments {
        List::Nil => List::Nil,
        List::Cons(head, tail) => List::Cons(
            Box::new(head.duplicate()),
            Box::new(duplicate_arguments(tail)),
        ),
    }
}

/// A copy of a list of sounds and the cells that take their samples.
pub fn duplicate_sounds(sounds: &List<(usize, Sound)>) -> (copy: List<(usize, Sound)>)
    ensures
        copy == *sounds,
    decreases sounds,
{
    match sounds {
        List::Nil => List::Nil,
        List::Cons(head, tail) => List::Cons(
            Box::new((head.0, head.1.duplicate())),
            Box::new(duplicate_sounds(tail)),
        ),
    }
}

impl Sound {
    /// A copy of the sound.
    pub fn duplicate(&self) -> (copy: Sound)
        ensures
            copy == *self,
        decreases self,
    {
        match self {
            Sound::Const(value) => Sound::Const(*value),
            Sound::Linear { slope, intercept } => Sound::Linear {
                slope: *slope,
                intercept: *intercept,
            },
            Sound::Sin { frequency, phase } => Sound::Sin { frequency: *frequency, phase: *phase },
            Sound::Exp { slope, intercept } => Sound::Exp { slope: *slope, intercept: *intercept },
            Sound::Begin(time) => Sound::Begin(*time),
            Sound::End(time) => Sound::End(*time),
            Sound::Rand => Sound::Rand,
            Sound::Minus(a) => Sound::Minus(Box::new(a.duplicate())),
            Sound::Reciprocal(a) => Sound::Reciprocal(Box::new(a.duplicate())),
            Sound::Add(a, b) => Sound::Add(Box::new(a.duplicate()), Box::new(b.duplicate())),
            Sound::Sub(a, b) => Sound::Sub(Box::new(a.duplicate()), Box::new(b.duplicate())),
            Sound::Mul(a, b) => Sound::Mul(Box::new(a.duplicate()), Box::new(b.duplicate())),
            Sound::Div(a, b) => Sound::Div(Box::new(a.duplicate()), Box::new(b.duplicate())),
            Sound::Pow(a, b) => Sound::Pow(Box::new(a.duplicate()), Box::new(b.duplicate())),
            Sound::Rem(a, b) => Sound::Rem(Box::new(a.duplicate()), Box::new(b.duplicate())),
            Sound::Apply(function, arguments, sounds) => Sound::Apply(
                *function,
                duplicate_arguments(arguments),
                duplicate_sounds(sounds),
            ),
        }
    }
}

/// The start of a line or of an angle, moved along by a time: `rate · t +
/// start`, the product rounded before the sum.
pub open spec fn moved<F: Fn(Operation, Real, Real) -> Real>(
    calc: F,
    rate: Real,
    t: Real,
    start: Real,
) -> Real {
    result_of(calc, Operation::Add, result_of(calc, Operation::Multiply, rate, t), start)
}

/// How fast the angle of a sine of a frequency turns: `2π · frequency`.
pub open spec fn turning<F: Fn(Operation, Real, Real) -> Real>(calc: F, frequency: Real) -> Real {
    result_of(calc, Operation::Multiply, Real { bits: TAU }, frequency)
}

/// The sound moved earlier by `t` seconds: at every time it has the value
/// that `sound` has `t` seconds later.
///
/// A generator takes the shift into its parameters: a line and an
/// exponential into the intercept, a sine into the phase, a step into its
/// time. A constant and the random sound do not change. A combinator shifts
/// its operands, and an applied function the sounds that it is applied to.
pub open spec fn shifted<F: Fn(Operation, Real, Real) -> Real>(sound: Sound, t: Real, calc: F)
    -> Sound
    decreases sound,
{
    match sound {
        Sound::Const(value) => Sound::Const(value),
        Sound::Linear { slope, intercept } => Sound::Linear {
            slope,
            intercept: moved(calc, slope, t, intercept),
        },
        Sound::Sin { frequency, phase } => Sound::Sin {
            frequency,
            phase: moved(calc, turning(calc, frequency), t, phase),
        },
        Sound::Exp { slope, intercept } => Sound::Exp {
            slope,
            intercept: moved(calc, slope, t, intercept),
        },
        Sound::Begin(time) => Sound::Begin(result_of(calc, Operation::Subtract, time, t)),
        Sound::End(time) => Sound::End(result_of(calc, Operation::Subtract, time, t)),
        Sound::Rand => Sound::Rand,
        Sound::Minus(a) => Sound::Minus(Box::new(shifted(*a, t, calc))),
        Sound::Reciprocal(a) => Sound::Reciprocal(Box::new(shifted(*a, t, calc))),
        Sound::Add(a, b) => Sound::Add(
            Box::new(shifted(*a, t, calc)),
            Box::new(shifted(*b, t, calc)),
        ),
        Sound::Sub(a, b) => Sound::Sub(
            Box::new(shifted(*a, t, calc)),
            Box::new(shifted(*b, t, calc)),
        ),
        Sound::Mul(a, b) => Sound::Mul(
            Box::new(shifted(*a, t, calc)),
            Box::new(shifted(*b, t, calc)),
        ),
        Sound::Div(a, b) => Sound::Div(
            Box::new(shifted(*a, t, calc)),
            Box::new(shifted(*b, t, calc)),
        ),
        Sound::Pow(a, b) => Sound::Pow(
            Box::new(shifted(*a, t, calc)),
            Box::new(shifted(*b, t, calc)),
        ),
        Sound::Rem(a, b) => Sound::Rem(
            Box::new(shifted(*a, t, calc)),
            Box::new(shifted(*b, t, calc)),
        ),
        Sound::Apply(function, arguments, sounds) => Sound::Apply(
            function,
            arguments,
            shifted_all(sounds, t, calc),
        ),
    }
}

/// The sounds of a list, each moved earlier by `t` seconds.
pub open spec fn shifted_all<F: Fn(Operation, Real, Real) -> Real>(
    sounds: List<(usize, Sound)>,
    t: Real,
    calc: F,
) -> List<(usize, Sound)>
    decreases sounds,
{
    match sounds {
        List::Nil => List::Nil,
        List::Cons(head, tail) => List::Cons(
            Box::new((head.0, shifted(head.1, t, calc))),
            Box::new(shifted_all(*tail, t, calc)),
        ),
    }
}

/// Moves the sounds of a list earlier by `t` seconds.
pub fn shift_all<F: Fn(Operation, Real, Real) -> Real>(
    sounds: List<(usize, Sound)>,
    t: Real,
    calc: &F,
) -> (result: List<(usize, Sound)>)
    requires
        lawful(*calc),
    ensures
        result == shifted_all(sounds, t, *calc),
    decreases sounds,
{
    match sounds {
        List::Nil => List::Nil,
        List::Cons(head, tail) => {
            let (cell, sound) = *head;
            List::Cons(Box::new((cell, sound.shift(t, calc))), Box::new(shift_all(*tail, t, calc)))
        },
    }
}

fn advance_start<F: Fn(Operation, Real, Real) -> Real>(
    calc: &F,
    rate: Real,
    t: Real,
    start: Real,
) -> (result: Real)
    requires
        lawful(*calc),
    ensures
        result == moved(*calc, rate, t, start),
{
    apply(calc, Operation::Add, apply(calc, Operation::Multiply, rate, t), start)
}

impl Sound {
    /// Moves the sound earlier by `t` seconds.
    pub fn shift<F: Fn(Operation, Real, Real) -> Real>(self, t: Real, calc: &F) -> (result: Sound)
        requires
            lawful(*calc),
        ensures
            result == shifted(self, t, *calc),
        decreases self,
    {
        match self {
            Sound::Const(value) => Sound::Const(value),
            Sound::Linear { slope, intercept } => Sound::Linear {
                slope,
                intercept: advance_start(calc, slope, t, intercept),
            },
            Sound::Sin { frequency, phase } => Sound::Sin {
                frequency,
                phase: advance_start(
                    calc,
                    apply(calc, Operation::Multiply, Real { bits: TAU }, frequency),
                    t,
                    phase,
                ),
            },
            Sound::Exp { slope, intercept } => Sound::Exp {
                slope,
                intercept: advance_start(calc, slope, t, intercept),
            },
            Sound::Begin(time) => Sound::Begin(apply(calc, Operation::Subtract, time, t)),
            Sound::End(time) => Sound::End(apply(calc, Operation::Subtract, time, t)),
            Sound::Rand => Sound::Rand,
            Sound::Minus(a) => Sound::Minus(Box::new(a.shift(t, calc))),
            Sound::Reciprocal(a) => Sound::Reciprocal(Box::new(a.shift(t, calc))),
            Sound::Add(a, b) => Sound::Add(Box::new(a.shift(t, calc)), Box::new(b.shift(t, calc))),
            Sound::Sub(a, b) => Sound::Sub(Box::new(a.shift(t, calc)), Box::new(b.shift(t, calc))),
            Sound::Mul(a, b) => Sound::Mul(Box::new(a.shift(t, calc)), Box::new(b.shift(t, calc))),
            Sound::Div(a, b) => Sound::Div(Box::new(a.shift(t, calc)), Box::new(b.shift(t, calc))),
            Sound::Pow(a, b) => Sound::Pow(Box::new(a.shift(t, calc)), Box::new(b.shift(t, calc))),
            Sound::Rem(a, b) => Sound::Rem(Box::new(a.shift(t, calc)), Box::new(b.shift(t, calc))),
            Sound::Apply(function, arguments, sounds) => Sound::Apply(
                function,
                arguments,
                shift_all(sounds, t, calc),
            ),
        }
    }
}

/// Whether shifting by `a` and then by `b` is, in the arithmetic `calc`,
/// the same as shifting by their sum on every line, angle and step. That
/// holds of the real numbers, and of their roundings only where nothing is
/// lost.
pub open spec fn shifts_add_up<F: Fn(Operation, Real, Real) -> Real>(calc: F, a: Real, b: Real)
    -> bool {
    &&& forall|rate: Real, start: Real| #[trigger]
        moved(calc, rate, b, moved(calc, rate, a, start)) == moved(
            calc,
            rate,
            result_of(calc, Operation::Add, a, b),
            start,
        )
    &&& forall|time: Real|
        result_of(
            calc,
            Operation::Subtract,
            #[trigger] result_of(calc, Operation::Subtract, time, a),
            b,
        ) == result_of(calc, Operation::Subtract, time, result_of(calc, Operation::Add, a, b))
}

/// Shifting a sound twice is shifting it once by the sum, wherever the
/// arithmetic adds the two shifts up without loss.
pub proof fn shift_twice<F: Fn(Operation, Real, Real) -> Real>(
    sound: Sound,
    a: Real,
    b: Real,
    calc: F,
)
    requires
        shifts_add_up(calc, a, b),
    ensures
        shifted(shifted(sound, a, calc), b, calc) == shifted(
            sound,
            result_of(calc, Operation::Add, a, b),
            calc,
        ),
    decreases sound,
{
    match sound {
        Sound::Minus(x) => shift_twice(*x, a, b, calc),
        Sound::Reciprocal(x) => shift_twice(*x, a, b, calc),
        Sound::Add(x, y) => {
            shift_twice(*x, a, b, calc);
            shift_twice(*y, a, b, calc);
        },
        Sound::Sub(x, y) => {
            shift_twice(*x, a, b, calc);
            shift_twice(*y, a, b, calc);
        },
        Sound::Mul(x, y) => {
            shift_twice(*x, a, b, calc);
            shift_twice(*y, a, b, calc);
        },
        Sound::Div(x, y) => {
            shift_twice(*x, a, b, calc);
            shift_twice(*y, a, b, calc);
        },
        Sound::Pow(x, y) => {
            shift_twice(*x, a, b, calc);
            shift_twice(*y, a, b, calc);
        },
        Sound::Rem(x, y) => {
            shift_twice(*x, a, b, calc);
            shift_twice(*y, a, b, calc);
        },
        Sound::Apply(_, _, sounds) => shift_all_twice(sounds, a, b, calc),
        Sound::Begin(time) => {
            let once = result_of(calc, Operation::Subtract, time, a);
        },
        Sound::End(time) => {
            let once = result_of(calc, Operation::Subtract, time, a);
        },
        _ => {},
    }
}

/// Shifting the sounds of a list twice is shifting them once by the sum,
/// wherever the arithmetic adds the two shifts up without loss.
pub proof fn shift_all_twice<F: Fn(Operation, Real, Real) -> Real>(
    sounds: List<(usize, Sound)>,
    a: Real,
    b: Real,
    calc: F,
)
    requires
        shifts_add_up(calc, a, b),
    ensures
        shifted_all(shifted_all(sounds, a, calc), b, calc) == shifted_all(
            sounds,
            result_of(calc, Operation::Add, a, b),
            calc,
        ),
    decreases sounds,
{
    match sounds {
        List::Nil => {},
        List::Cons(head, tail) => {
            shift_twice(head.1, a, b, calc);
            shift_all_twice(*tail, a, b, calc);
        },
    }
}

/// A sound with what a shift changes taken out: every intercept, phase and
/// step time is zero.
pub open spec fn skeleton(sound: Sound) -> Sound
    decreases sound,
{
    match sound {
        Sound::Const(value) => Sound::Const(value),
        Sound::Linear { slope, intercept } => Sound::Linear { slope, intercept: Real { bits: 0 } },
        Sound::Sin { frequency, phase } => Sound::Sin { frequency, phase: Real { bits: 0 } },
        Sound::Exp { slope, intercept } => Sound::Exp { slope, intercept: Real { bits: 0 } },
        Sound::Begin(_) => Sound::Begin(Real { bits: 0 }),
        Sound::End(_) => Sound::End(Real { bits: 0 }),
        Sound::Rand => Sound::Rand,
        Sound::Minus(a) => Sound::Minus(Box::new(skeleton(*a))),
        Sound::Reciprocal(a) => Sound::Reciprocal(Box::new(skeleton(*a))),
        Sound::Add(a, b) => Sound::Add(Box::new(skeleton(*a)), Box::new(skeleton(*b))),
        Sound::Sub(a, b) => Sound::Sub(Box::new(skeleton(*a)), Box::new(skeleton(*b))),
        Sound::Mul(a, b) => Sound::Mul(Box::new(skeleton(*a)), Box::new(skeleton(*b))),
        Sound::Div(a, b) => Sound::Div(Box::new(skeleton(*a)), Box::new(skeleton(*b))),
        Sound::Pow(a, b) => Sound::Pow(Box::new(skeleton(*a)), Box::new(skeleton(*b))),
        Sound::Rem(a, b) => Sound::Rem(Box::new(skeleton(*a)), Box::new(skeleton(*b))),
        Sound::Apply(function, arguments, sounds) => Sound::Apply(
            function,
            arguments,
            skeletons(sounds),
        ),
    }
}

/// The skeletons of the sounds of a list.
pub open spec fn skeletons(sounds: List<(usize, Sound)>) -> List<(usize, Sound)>
    decreases sounds,
{
    match sounds {
        List::Nil => List::Nil,
        List::Cons(head, tail) => List::Cons(
            Box::new((head.0, skeleton(head.1))),
            Box::new(skeletons(*tail)),
        ),
    }
}

/// A shift changes nothing of a sound but intercepts, phases and step
/// times, whatever the arithmetic: the tree, the slopes and frequencies,
/// the constants and the applied functions with their arguments stay. So
/// two shifts and one shift by the sum always give trees of one build.
pub proof fn shift_keeps_skeleton<F: Fn(Operation, Real, Real) -> Real>(
    sound: Sound,
    t: Real,
    calc: F,
)
    ensures
        skeleton(shifted(sound, t, calc)) == skeleton(sound),
    decreases sound,
{
    match sound {
        Sound::Minus(x) => shift_keeps_skeleton(*x, t, calc),
        Sound::Reciprocal(x) => shift_keeps_skeleton(*x, t, calc),
        Sound::Add(x, y) => {
            shift_keeps_skeleton(*x, t, calc);
            shift_keeps_skeleton(*y, t, calc);
        },
        Sound::Sub(x, y) => {
            shift_keeps_skeleton(*x, t, calc);
            shift_keeps_skeleton(*y, t, calc);
        },
        Sound::Mul(x, y) => {
            shift_keeps_skeleton(*x, t, calc);
            shift_keeps_skeleton(*y, t, calc);
        },
        Sound::Div(x, y) => {
            shift_keeps_skeleton(*x, t, calc);
            shift_keeps_skeleton(*y, t, calc);
        },
        Sound::Pow(x, y) => {
            shift_keeps_skeleton(*x, t, calc);
            shift_keeps_skeleton(*y, t, calc);
        },
        Sound::Rem(x, y) => {
            shift_keeps_skeleton(*x, t, calc);
            shift_keeps_skeleton(*y, t, calc);
        },
        Sound::Apply(_, _, sounds) => shift_keeps_skeletons(sounds, t, calc),
        _ => {},
    }
}

/// A shift changes nothing of the sounds of a list but intercepts, phases
/// and step times.
pub proof fn shift_keeps_skeletons<F: Fn(Operation, Real, Real) -> Real>(
    sounds: List<(usize, Sound)>,
    t: Real,
    calc: F,
)
    ensures
        skeletons(shifted_all(sounds, t, calc)) == skeletons(sounds),
    decreases sounds,
{
    match sounds {
        List::Nil => {},
        List::Cons(head, tail) => {
            shift_keeps_skeleton(head.1, t, calc);
            shift_keeps_skeletons(*tail, t, calc);
        },
    }
}

/// A point on the unit circle, or near it: a complex number.
#[derive(Debug, Clone, Copy, PartialEq, Eq, Structural)]
pub struct Phasor {
    pub re: Real,
    pub im: Real,
}

/// The point of the unit circle at an angle.
pub open spec fn on_circle<F: Fn(Operation, Real, Real) -> Real>(calc: F, angle: Real) -> Phasor {
    Phasor {
        re: result_of(calc, Operation::Cos, angle, Real { bits: 0 }),
        im: result_of(calc, Operation::Sin, angle, Real { bits: 0 }),
    }
}

/// The product of two complex numbers.
pub open spec fn turned<F: Fn(Operation, Real, Real) -> Real>(calc: F, a: Phasor, b: Phasor)
    -> Phasor {
    Phasor {
        re: result_of(
            calc,
            Operation::Subtract,
            result_of(calc, Operation::Multiply, a.re, b.re),
            result_of(calc, Operation::Multiply, a.im, b.im),
        ),
        im: result_of(
            calc,
            Operation::Add,
            result_of(calc, Operation::Multiply, a.re, b.im),
            result_of(calc, Operation::Multiply, a.im, b.re),
        ),
    }
}

fn point_at<F: Fn(Operation, Real, Real) -> Real>(calc: &F, angle: Real) -> (result: Phasor)
    requires
        lawful(*calc),
    ensures
        result == on_circle(*calc, angle),
{
    Phasor {
        re: apply(calc, Operation::Cos, angle, Real { bits: 0 }),
        im: apply(calc, Operation::Sin, angle, Real { bits: 0 }),
    }
}

fn turn<F: Fn(Operation, Real, Real) -> Real>(calc: &F, a: Phasor, b: Phasor) -> (result: Phasor)
    requires
        lawful(*calc),
    ensures
        result == turned(*calc, a, b),
{
    Phasor {
        re: apply(
            calc,
            Operation::Subtract,
            apply(calc, Operation::Multiply, a.re, b.re),
            apply(calc, Operation::Multiply, a.im, b.im),
        ),
        im: apply(
            calc,
            Operation::Add,
            apply(calc, Operation::Multiply, a.re, b.im),
            apply(calc, Operation::Multiply, a.im, b.re),
        ),
    }
}

/// A sound as a stream of samples at a fixed rate: what is left of it after
/// the samples taken so far.
///
/// | generator | state | sample |
/// |---|---|---|
/// | constant | the value | the value |
/// | line | first value, step, number of samples taken | first + step · number |
/// | exponential | the same, of the exponent | exp(first + step · number) |
/// | sine | a point on the unit circle and the turn of one sample | the imaginary part of the point, which is then turned |
/// | step up | the number of zeros still to come | 0 while zeros are left, then 1 |
/// | step down | the number of ones still to come | 1 while ones are left, then 0 |
/// | random | none | the next of the random numbers handed in |
#[derive(Debug, PartialEq, Eq)]
pub enum SoundIter {
    Const(Real),
    Linear { first: Real, difference: Real, counter: i64 },
    Exp { first: Real, difference: Real, counter: i64 },
    Sin { next: Phasor, ratio: Phasor },
    Begin(i64),
    End(i64),
    Rand,
    Minus(Box<SoundIter>),
    Reciprocal(Box<SoundIter>),
    Add(Box<SoundIter>, Box<SoundIter>),
    Sub(Box<SoundIter>, Box<SoundIter>),
    Mul(Box<SoundIter>, Box<SoundIter>),
    Div(Box<SoundIter>, Box<SoundIter>),
    Pow(Box<SoundIter>, Box<SoundIter>),
    Rem(Box<SoundIter>, Box<SoundIter>),
    Apply(RealFunction, List<Argument>, List<(usize, SoundIter)>),
}

/// The number of samples before a time, at a sample rate: the integer part
/// of their product.
pub open spec fn samples_before<F: Fn(Operation, Real, Real) -> Real>(
    calc: F,
    time: Real,
    samplerate: Real,
) -> i64 {
    result_of(calc, Operation::Multiply, time, samplerate).whole() as i64
}

/// The stream of the samples of a sound at a sample rate, from time zero
/// on.
pub open spec fn stream<F: Fn(Operation, Real, Real) -> Real>(
    sound: Sound,
    samplerate: Real,
    calc: F,
) -> SoundIter
    decreases sound,
{
    match sound {
        Sound::Const(value) => SoundIter::Const(value),
        Sound::Linear { slope, intercept } => SoundIter::Linear {
            first: intercept,
            difference: result_of(calc, Operation::Divide, slope, samplerate),
            counter: 0,
        },
        Sound::Sin { frequency, phase } => SoundIter::Sin {
            next: on_circle(calc, phase),
            ratio: on_circle(
                calc,
                result_of(calc, Operation::Divide, turning(calc, frequency), samplerate),
            ),
        },
        Sound::Exp { slope, intercept } => SoundIter::Exp {
            first: intercept,
            difference: result_of(calc, Operation::Divide, slope, samplerate),
            counter: 0,
        },
        Sound::Begin(time) => SoundIter::Begin(samples_before(calc, time, samplerate)),
        Sound::End(time) => SoundIter::End(samples_before(calc, time, samplerate)),
        Sound::Rand => SoundIter::Rand,
        Sound::Minus(a) => SoundIter::Minus(Box::new(stream(*a, samplerate, calc))),
        Sound::Reciprocal(a) => SoundIter::Reciprocal(Box::new(stream(*a, samplerate, calc))),
        Sound::Add(a, b) => SoundIter::Add(
            Box::new(stream(*a, samplerate, calc)),
            Box::new(stream(*b, samplerate, calc)),
        ),
        Sound::Sub(a, b) => SoundIter::Sub(
            Box::new(stream(*a, samplerate, calc)),
            Box::new(stream(*b, samplerate, calc)),
        ),
        Sound::Mul(a, b) => SoundIter::Mul(
            Box::new(stream(*a, samplerate, calc)),
            Box::new(stream(*b, samplerate, calc)),
        ),
        Sound::Div(a, b) => SoundIter::Div(
            Box::new(stream(*a, samplerate, calc)),
            Box::new(stream(*b, samplerate, calc)),
        ),
        Sound::Pow(a, b) => SoundIter::Pow(
            Box::new(stream(*a, samplerate, calc)),
            Box::new(stream(*b, samplerate, calc)),
        ),
        Sound::Rem(a, b) => SoundIter::Rem(
            Box::new(stream(*a, samplerate, calc)),
            Box::new(stream(*b, samplerate, calc)),
        ),
        Sound::Apply(function, arguments, sounds) => SoundIter::Apply(
            function,
            arguments,
            streams(sounds, samplerate, calc),
        ),
    }
}

/// The streams of the sounds of a list.
pub open spec fn streams<F: Fn(Operation, Real, Real) -> Real>(
    sounds: List<(usize, Sound)>,
    samplerate: Real,
    calc: F,
) -> List<(usize, SoundIter)>
    decreases sounds,
{
    match sounds {
        List::Nil => List::Nil,
        List::Cons(head, tail) => List::Cons(
            Box::new((head.0, stream(head.1, samplerate, calc))),
            Box::new(streams(*tail, samplerate, calc)),
        ),
    }
}

/// Makes the streams of the sounds of a list.
pub fn iter_all<F: Fn(Operation, Real, Real) -> Real>(
    sounds: List<(usize, Sound)>,
    samplerate: Real,
    calc: &F,
) -> (result: List<(usize, SoundIter)>)
    requires
        lawful(*calc),
    ensures
        result == streams(sounds, samplerate, *calc),
    decreases sounds,
{
    match sounds {
        List::Nil => List::Nil,
        List::Cons(head, tail) => {
            let (cell, sound) = *head;
            List::Cons(
                Box::new((cell, sound.iter(samplerate, calc))),
                Box::new(iter_all(*tail, samplerate, calc)),
            )
        },
    }
}

impl Sound {
    /// Makes the stream of the samples of the sound at a sample rate, from
    /// time zero on.
    pub fn iter<F: Fn(Operation, Real, Real) -> Real>(self, samplerate: Real, calc: &F) -> (result:
        SoundIter)
        requires
            lawful(*calc),
        ensures
            result == stream(self, samplerate, *calc),
        decreases self,
    {
        match self {
            Sound::Const(value) => SoundIter::Const(value),
            Sound::Linear { slope, intercept } => SoundIter::Linear {
                first: intercept,
                difference: apply(calc, Operation::Divide, slope, samplerate),
                counter: 0,
            },
            Sound::Sin { frequency, phase } => SoundIter::Sin {
                next: point_at(calc, phase),
                ratio: point_at(
                    calc,
                    apply(
                        calc,
                        Operation::Divide,
                        apply(calc, Operation::Multiply, Real { bits: TAU }, frequency),
                        samplerate,
                    ),
                ),
            },
            Sound::Exp { slope, intercept } => SoundIter::Exp {
                first: intercept,
                difference: apply(calc, Operation::Divide, slope, samplerate),
                counter: 0,
            },
            Sound::Begin(time) => SoundIter::Begin(
                apply(calc, Operation::Multiply, time, samplerate).to_integer(),
            ),
            Sound::End(time) => SoundIter::End(
                apply(calc, Operation::Multiply, time, samplerate).to_integer(),
            ),
            Sound::Rand => SoundIter::Rand,
            Sound::Minus(a) => SoundIter::Minus(Box::new(a.iter(samplerate, calc))),
            Sound::Reciprocal(a) => SoundIter::Reciprocal(Box::new(a.iter(samplerate, calc))),
            Sound::Add(a, b) => SoundIter::Add(
                Box::new(a.iter(samplerate, calc)),
                Box::new(b.iter(samplerate, calc)),
            ),
            Sound::Sub(a, b) => SoundIter::Sub(
                Box::new(a.iter(samplerate, calc)),
                Box::new(b.iter(samplerate, calc)),
            ),
            Sound::Mul(a, b) => SoundIter::Mul(
                Box::new(a.iter(samplerate, calc)),
                Box::new(b.iter(samplerate, calc)),
            ),
            Sound::Div(a, b) => SoundIter::Div(
                Box::new(a.iter(samplerate, calc)),
                Box::new(b.iter(samplerate, calc)),
            ),
            Sound::Pow(a, b) => SoundIter::Pow(
                Box::new(a.iter(samplerate, calc)),
                Box::new(b.iter(samplerate, calc)),
            ),
            Sound::Rem(a, b) => SoundIter::Rem(
                Box::new(a.iter(samplerate, calc)),
                Box::new(b.iter(samplerate, calc)),
            ),
            Sound::Apply(function, arguments, sounds) => SoundIter::Apply(
                function,
                arguments,
                iter_all(sounds, samplerate, calc),
            ),
        }
    }
}

/// What taking one sample gives: the sample, what is left of the stream,
/// what the cells hold then, and how many of the random numbers are used
/// up.
pub struct Step {
    pub value: Real,
    pub iter: SoundIter,
    pub memory: Memory,
    pub at: nat,
}

/// What taking one sample from each stream of a list gives: what is left of
/// the streams, what the cells hold then, and how many of the random
/// numbers are used up.
pub struct Feed {
    pub iters: List<(usize, SoundIter)>,
    pub memory: Memory,
    pub at: nat,
}

/// The memory after the arguments of an applied function are written to
/// their cells, in order.
pub open spec fn arguments_written(arguments: List<Argument>, memory: Memory) -> Memory
    decreases arguments,
{
    match arguments {
        List::Nil => memory,
        List::Cons(head, tail) => arguments_written(
            *tail,
            match *head {
                Argument::Real(cell, value) => memory.with_real(cell, value),
                Argument::Boolean(cell, value) => memory.with_boolean(cell, value),
                Argument::Sound(cell, value) => memory.with_sound(cell, value),
            },
        ),
    }
}

/// The value of a line after a number of steps: `first + difference ·
/// counter`.
pub open spec fn along<F: Fn(Operation, Real, Real) -> Real>(
    calc: F,
    first: Real,
    difference: Real,
    counter: i64,
) -> Real {
    result_of(
        calc,
        Operation::Add,
        first,
        result_of(calc, Operation::Multiply, difference, real_of_integer(calc, counter)),
    )
}

/// A counter after one more step; it stays where it cannot go further.
pub open spec fn counted_up(counter: i64) -> i64 {
    if counter < i64::MAX {
        (counter + 1) as i64
    } else {
        counter
    }
}

/// The next sample of a stream, and what is left of the stream.
///
/// Every sample is clamped to the finite range. The operands of a
/// combinator give their samples from left to right. An applied function
/// first has its arguments written to their cells, then takes a sample from
/// each of its sounds in order and writes it to the cell that the sound is
/// bound to, and then gives its value. The random sound gives the next of
/// the numbers in `draws`, from the place `at` on, and zero where they have
/// run out.
pub open spec fn taken<F: Fn(Operation, Real, Real) -> Real>(
    iter: SoundIter,
    calc: F,
    memory: Memory,
    draws: Seq<Real>,
    at: nat,
) -> Step
    decreases iter,
{
    match iter {
        SoundIter::Const(value) => Step { value: value.clamped(), iter, memory, at },
        SoundIter::Linear { first, difference, counter } => Step {
            value: along(calc, first, difference, counter).clamped(),
            iter: SoundIter::Linear { first, difference, counter: counted_up(counter) },
            memory,
            at,
        },
        SoundIter::Exp { first, difference, counter } => Step {
            value: result_of(
                calc,
                Operation::Exp,
                along(calc, first, difference, counter),
                Real { bits: 0 },
            ).clamped(),
            iter: SoundIter::Exp { first, difference, counter: counted_up(counter) },
            memory,
            at,
        },
        SoundIter::Sin { next, ratio } => Step {
            value: next.im.clamped(),
            iter: SoundIter::Sin { next: turned(calc, next, ratio), ratio },
            memory,
            at,
        },
        SoundIter::Begin(left) => if left > 0 {
            Step { value: Real { bits: 0 }, iter: SoundIter::Begin((left - 1) as i64), memory, at }
        } else {
            Step { value: Real { bits: ONE }, iter, memory, at }
        },
        SoundIter::End(left) => if left > 0 {
            Step {
                value: Real { bits: ONE },
                iter: SoundIter::End((left - 1) as i64),
                memory,
                at,
            }
        } else {
            Step { value: Real { bits: 0 }, iter, memory, at }
        },
        SoundIter::Rand => if at < draws.len() {
            Step { value: draws[at as int].clamped(), iter, memory, at: at + 1 }
        } else {
            Step { value: Real { bits: 0 }, iter, memory, at }
        },
        SoundIter::Minus(a) => {
            let inner = taken(*a, calc, memory, draws, at);
            Step {
                value: inner.value.negated().clamped(),
                iter: SoundIter::Minus(Box::new(inner.iter)),
                memory: inner.memory,
                at: inner.at,
            }
        },
        SoundIter::Reciprocal(a) => {
            let inner = taken(*a, calc, memory, draws, at);
            Step {
                value: result_of(calc, Operation::Reciprocal, inner.value, Real { bits: 0 }).clamped(),
                iter: SoundIter::Reciprocal(Box::new(inner.iter)),
                memory: inner.memory,
                at: inner.at,
            }
        },
        SoundIter::Add(a, b) => {
            let left = taken(*a, calc, memory, draws, at);
            let right = taken(*b, calc, left.memory, draws, left.at);
            Step {
                value: result_of(calc, Operation::Add, left.value, right.value).clamped(),
                iter: SoundIter::Add(Box::new(left.iter), Box::new(right.iter)),
                memory: right.memory,
                at: right.at,
            }
        },
        SoundIter::Sub(a, b) => {
            let left = taken(*a, calc, memory, draws, at);
            let right = taken(*b, calc, left.memory, draws, left.at);
            Step {
                value: result_of(calc, Operation::Subtract, left.value, right.value).clamped(),
                iter: SoundIter::Sub(Box::new(left.iter), Box::new(right.iter)),
                memory: right.memory,
                at: right.at,
            }
        },
        SoundIter::Mul(a, b) => {
            let left = taken(*a, calc, memory, draws, at);
            let right = taken(*b, calc, left.memory, draws, left.at);
            Step {
                value: result_of(calc, Operation::Multiply, left.value, right.value).clamped(),
                iter: SoundIter::Mul(Box::new(left.iter), Box::new(right.iter)),
                memory: right.memory,
                at: right.at,
            }
        },
        SoundIter::Div(a, b) => {
            let left = taken(*a, calc, memory, draws, at);
            let right = taken(*b, calc, left.memory, draws, left.at);
            Step {
                value: result_of(calc, Operation::Divide, left.value, right.value).clamped(),
                iter: SoundIter::Div(Box::new(left.iter), Box::new(right.iter)),
                memory: right.memory,
                at: right.at,
            }
        },
        SoundIter::Pow(a, b) => {
            let left = taken(*a, calc, memory, draws, at);
            let right = taken(*b, calc, left.memory, draws, left.at);
            Step {
                value: result_of(calc, Operation::Power, left.value, right.value).clamped(),
                iter: SoundIter::Pow(Box::new(left.iter), Box::new(right.iter)),
                memory: right.memory,
                at: right.at,
            }
        },
        SoundIter::Rem(a, b) => {
            let left = taken(*a, calc, memory, draws, at);
            let right = taken(*b, calc, left.memory, draws, left.at);
            Step {
                value: result_of(calc, Operation::Remainder, left.value, right.value).clamped(),
                iter: SoundIter::Rem(Box::new(left.iter), Box::new(right.iter)),
                memory: right.memory,
                at: right.at,
            }
        },
        SoundIter::Apply(function, arguments, sounds) => {
            let fed = all_taken(sounds, calc, arguments_written(arguments, memory), draws, at);
            Step {
                value: function.value(calc, fed.memory).clamped(),
                iter: SoundIter::Apply(function, arguments, fed.iters),
                memory: fed.memory,
                at: fed.at,
            }
        },
    }
}

/// One sample taken from each stream of a list, in order, and written to
/// the real cell that the stream is bound to.
pub open spec fn all_taken<F: Fn(Operation, Real, Real) -> Real>(
    sounds: List<(usize, SoundIter)>,
    calc: F,
    memory: Memory,
    draws: Seq<Real>,
    at: nat,
) -> Feed
    decreases sounds,
{
    match sounds {
        List::Nil => Feed { iters: List::Nil, memory, at },
        List::Cons(head, tail) => {
            let first = taken(head.1, calc, memory, draws, at);
            let rest = all_taken(
                *tail,
                calc,
                first.memory.with_real(head.0, first.value),
                draws,
                first.at,
            );
            Feed {
                iters: List::Cons(Box::new((head.0, first.iter)), Box::new(rest.iters)),
                memory: rest.memory,
                at: rest.at,
            }
        },
    }
}

/// Writes the arguments of an applied function to their cells.
pub fn write_arguments(arguments: &List<Argument>, store: &mut Store)
    ensures
        final(store)@ == arguments_written(*arguments, old(store)@),
    decreases arguments,
{
    match arguments {
        List::Nil => {},
        List::Cons(head, tail) => {
            match &**head {
                Argument::Real(cell, value) => store.write_real(*cell, *value),
                Argument::Boolean(cell, value) => store.write_boolean(*cell, *value),
                Argument::Sound(cell, value) => store.write_sound(*cell, value.duplicate()),
            }
            write_arguments(tail, store);
        },
    }
}

fn step_up(counter: i64) -> (next: i64)
    ensures
        next == counted_up(counter),
{
    if counter < i64::MAX {
        counter + 1
    } else {
        counter
    }
}

fn value_along<F: Fn(Operation, Real, Real) -> Real>(
    calc: &F,
    first: Real,
    difference: Real,
    counter: i64,
) -> (value: Real)
    requires
        lawful(*calc),
    ensures
        value == along(*calc, first, difference, counter),
{
    apply(
        calc,
        Operation::Add,
        first,
        apply(calc, Operation::Multiply, difference, convert(calc, counter)),
    )
}

/// Takes one sample from each stream of a list and writes it to the cell
/// that the stream is bound to.
pub fn advance_all<F: Fn(Operation, Real, Real) -> Real>(
    sounds: List<(usize, SoundIter)>,
    calc: &F,
    store: &mut Store,
    draws: &Vec<Real>,
    at: usize,
) -> (result: (List<(usize, SoundIter)>, usize))
    requires
        lawful(*calc),
        at <= draws@.len(),
    ensures
        result.0 == all_taken(sounds, *calc, old(store)@, draws@, at as nat).iters,
        result.1 == all_taken(sounds, *calc, old(store)@, draws@, at as nat).at,
        result.1 <= draws@.len(),
        final(store)@ == all_taken(sounds, *calc, old(store)@, draws@, at as nat).memory,
    decreases sounds,
{
    match sounds {
        List::Nil => (List::Nil, at),
        List::Cons(head, tail) => {
            let (cell, iter) = *head;
            let (value, iter, at) = iter.advance(calc, store, draws, at);
            store.write_real(cell, value);
            let (rest, at) = advance_all(*tail, calc, store, draws, at);
            (List::Cons(Box::new((cell, iter)), Box::new(rest)), at)
        },
    }
}

impl SoundIter {
    /// Takes the next sample: gives the sample, what is left of the stream,
    /// and the place in `draws` of the next random number.
    pub fn advance<F: Fn(Operation, Real, Real) -> Real>(
        self,
        calc: &F,
        store: &mut Store,
        draws: &Vec<Real>,
        at: usize,
    ) -> (result: (Real, SoundIter, usize))
        requires
            lawful(*calc),
            at <= draws@.len(),
        ensures
            result.0 == taken(self, *calc, old(store)@, draws@, at as nat).value,
            result.1 == taken(self, *calc, old(store)@, draws@, at as nat).iter,
            result.2 == taken(self, *calc, old(store)@, draws@, at as nat).at,
            result.2 <= draws@.len(),
            final(store)@ == taken(self, *calc, old(store)@, draws@, at as nat).memory,
        decreases self,
    {
        match self {
            SoundIter::Const(value) => (value.clamp(), SoundIter::Const(value), at),
            SoundIter::Linear { first, difference, counter } => (
                value_along(calc, first, difference, counter).clamp(),
                SoundIter::Linear { first, difference, counter: step_up(counter) },
                at,
            ),
            SoundIter::Exp { first, difference, counter } => (
                apply(
                    calc,
                    Operation::Exp,
                    value_along(calc, first, difference, counter),
                    Real { bits: 0 },
                ).clamp(),
                SoundIter::Exp { first, difference, counter: step_up(counter) },
                at,
            ),
            SoundIter::Sin { next, ratio } => (
                next.im.clamp(),
                SoundIter::Sin { next: turn(calc, next, ratio), ratio },
                at,
            ),
            SoundIter::Begin(left) => if left > 0 {
                (Real { bits: 0 }, SoundIter::Begin(left - 1), at)
            } else {
                (Real { bits: ONE }, SoundIter::Begin(left), at)
            },
            SoundIter::End(left) => if left > 0 {
                (Real { bits: ONE }, SoundIter::End(left - 1), at)
            } else {
                (Real { bits: 0 }, SoundIter::End(left), at)
            },
            SoundIter::Rand => if at < draws.len() {
                (draws[at].clamp(), SoundIter::Rand, at + 1)
            } else {
                (Real { bits: 0 }, SoundIter::Rand, at)
            },
            SoundIter::Minus(a) => {
                let (value, iter, at) = a.advance(calc, store, draws, at);
                (value.negate().clamp(), SoundIter::Minus(Box::new(iter)), at)
            },
            SoundIter::Reciprocal(a) => {
                let (value, iter, at) = a.advance(calc, store, draws, at);
                (
                    apply(calc, Operation::Reciprocal, value, Real { bits: 0 }).clamp(),
                    SoundIter::Reciprocal(Box::new(iter)),
                    at,
                )
            },
            SoundIter::Add(a, b) => {
                let (left, a, at) = a.advance(calc, store, draws, at);
                let (right, b, at) = b.advance(calc, store, draws, at);
                (
                    apply(calc, Operation::Add, left, right).clamp(),
                    SoundIter::Add(Box::new(a), Box::new(b)),
                    at,
                )
            },
            SoundIter::Sub(a, b) => {
                let (left, a, at) = a.advance(calc, store, draws, at);
                let (right, b, at) = b.advance(calc, store, draws, at);
                (
                    apply(calc, Operation::Subtract, left, right).clamp(),
                    SoundIter::Sub(Box::new(a), Box::new(b)),
                    at,
                )
            },
            SoundIter::Mul(a, b) => {
                let (left, a, at) = a.advance(calc, store, draws, at);
                let (right, b, at) = b.advance(calc, store, draws, at);
                (
                    apply(calc, Operation::Multiply, left, right).clamp(),
                    SoundIter::Mul(Box::new(a), Box::new(b)),
                    at,
                )
            },
            SoundIter::Div(a, b) => {
                let (left, a, at) = a.advance(calc, store, draws, at);
                let (right, b, at) = b.advance(calc, store, draws, at);
                (
                    apply(calc, Operation::Divide, left, right).clamp(),
                    SoundIter::Div(Box::new(a), Box::new(b)),
                    at,
                )
            },
            SoundIter::Pow(a, b) => {
                let (left, a, at) = a.advance(calc, store, draws, at);
                let (right, b, at) = b.advance(calc, store, draws, at);
                (
                    apply(calc, Operation::Power, left, right).clamp(),
                    SoundIter::Pow(Box::new(a), Box::new(b)),
                    at,
                )
            },
            SoundIter::Rem(a, b) => {
                let (left, a, at) = a.advance(calc, store, draws, at);
                let (right, b, at) = b.advance(calc, store, draws, at);
                (
                    apply(calc, Operation::Remainder, left, right).clamp(),
                    SoundIter::Rem(Box::new(a), Box::new(b)),
                    at,
                )
            },
            SoundIter::Apply(function, arguments, sounds) => {
                write_arguments(&arguments, store);
                let (sounds, at) = advance_all(sounds, calc, store, draws, at);
                let value = function.evaluate(calc, store).clamp();
                (value, SoundIter::Apply(function, arguments, sounds), at)
            },
        }
    }

    /// Takes the next sample of the stream.
    ///
    /// `draws` holds the random numbers of this sample, each at least 0 and
    /// less than 1; the stream uses as many as it has random sounds, from
    /// the first on.
    pub fn next<F: Fn(Operation, Real, Real) -> Real>(
        &mut self,
        calc: &F,
        store: &mut Store,
        draws: &Vec<Real>,
    ) -> (value: Real)
        requires
            lawful(*calc),
        ensures
            value == taken(*old(self), *calc, old(store)@, draws@, 0).value,
            *final(self) == taken(*old(self), *calc, old(store)@, draws@, 0).iter,
            final(store)@ == taken(*old(self), *calc, old(store)@, draws@, 0).memory,
            value.is_finite() || value.is_nan(),
    {
        let mut current = SoundIter::Rand;
        core::mem::swap(self, &mut current);
        let (value, rest, _) = current.advance(calc, store, draws, 0);
        *self = rest;
        proof {
            sample_is_clamped(*old(self), *calc, old(store)@, draws@, 0);
        }
        value
    }

    /// The number of random sounds in the stream, or `usize::MAX` where
    /// there are more than that: how many random numbers a sample takes.
    pub fn randoms(&self) -> (n: usize)
        ensures
            n == counted(random_sounds(*self)),
        decreases self,
    {
        match self {
            SoundIter::Rand => 1,
            SoundIter::Minus(a) => a.randoms(),
            SoundIter::Reciprocal(a) => a.randoms(),
            SoundIter::Add(a, b) => a.randoms().saturating_add(b.randoms()),
            SoundIter::Sub(a, b) => a.randoms().saturating_add(b.randoms()),
            SoundIter::Mul(a, b) => a.randoms().saturating_add(b.randoms()),
            SoundIter::Div(a, b) => a.randoms().saturating_add(b.randoms()),
            SoundIter::Pow(a, b) => a.randoms().saturating_add(b.randoms()),
            SoundIter::Rem(a, b) => a.randoms().saturating_add(b.randoms()),
            SoundIter::Apply(_, _, sounds) => randoms_of_all(sounds),
            _ => 0,
        }
    }
}

/// The number of random sounds in the streams of a list, or `usize::MAX`
/// where there are more than that.
pub fn randoms_of_all(sounds: &List<(usize, SoundIter)>) -> (n: usize)
    ensures
        n == counted(random_sounds_of_all(*sounds)),
    decreases sounds,
{
    match sounds {
        List::Nil => 0,
        List::Cons(head, tail) => head.1.randoms().saturating_add(randoms_of_all(tail)),
    }
}

/// The number of random sounds in a stream.
pub open spec fn random_sounds(iter: SoundIter) -> nat
    decreases iter,
{
    match iter {
        SoundIter::Rand => 1,
        SoundIter::Minus(a) => random_sounds(*a),
        SoundIter::Reciprocal(a) => random_sounds(*a),
        SoundIter::Add(a, b) => random_sounds(*a) + random_sounds(*b),
        SoundIter::Sub(a, b) => random_sounds(*a) + random_sounds(*b),
        SoundIter::Mul(a, b) => random_sounds(*a) + random_sounds(*b),
        SoundIter::Div(a, b) => random_sounds(*a) + random_sounds(*b),
        SoundIter::Pow(a, b) => random_sounds(*a) + random_sounds(*b),
        SoundIter::Rem(a, b) => random_sounds(*a) + random_sounds(*b),
        SoundIter::Apply(_, _, sounds) => random_sounds_of_all(sounds),
        _ => 0,
    }
}

/// The number of random sounds in the streams of a list.
pub open spec fn random_sounds_of_all(sounds: List<(usize, SoundIter)>) -> nat
    decreases sounds,
{
    match sounds {
        List::Nil => 0,
        List::Cons(head, tail) => random_sounds(head.1) + random_sounds_of_all(*tail),
    }
}

/// The cells that the streams of a list are bound to, in order.
pub open spec fn bound_cells(sounds: List<(usize, SoundIter)>) -> List<usize>
    decreases sounds,
{
    match sounds {
        List::Nil => List::Nil,
        List::Cons(head, tail) => List::Cons(Box::new(head.0), Box::new(bound_cells(*tail))),
    }
}

/// What is left of the `k`-th stream of a list after a sample is taken
/// from each stream in order, and the sample taken from it: the stream is
/// asked once, in the memory that the streams before it left.
pub open spec fn taken_from<F: Fn(Operation, Real, Real) -> Real>(
    sounds: List<(usize, SoundIter)>,
    calc: F,
    memory: Memory,
    draws: Seq<Real>,
    at: nat,
    k: nat,
) -> Step
    decreases sounds,
{
    match sounds {
        List::Nil => Step { value: Real { bits: 0 }, iter: SoundIter::Rand, memory, at },
        List::Cons(head, tail) => {
            let first = taken(head.1, calc, memory, draws, at);
            if k == 0 {
                first
            } else {
                taken_from(
                    *tail,
                    calc,
                    first.memory.with_real(head.0, first.value),
                    draws,
                    first.at,
                    (k - 1) as nat,
                )
            }
        },
    }
}

/// The stream at place `k` of a list.
pub open spec fn stream_at(sounds: List<(usize, SoundIter)>, k: nat) -> Option<SoundIter>
    decreases sounds,
{
    match sounds {
        List::Nil => None,
        List::Cons(head, tail) => if k == 0 {
            Some(head.1)
        } else {
            stream_at(*tail, (k - 1) as nat)
        },
    }
}

/// A sample of an applied function takes exactly one sample from each of
/// the sounds that the function is applied to: as many streams are left as
/// there were, bound to the same cells, and each is what one sample taken
/// from it leaves.
pub proof fn apply_takes_one_sample_each<F: Fn(Operation, Real, Real) -> Real>(
    sounds: List<(usize, SoundIter)>,
    calc: F,
    memory: Memory,
    draws: Seq<Real>,
    at: nat,
    k: nat,
)
    ensures
        all_taken(sounds, calc, memory, draws, at).iters.length() == sounds.length(),
        bound_cells(all_taken(sounds, calc, memory, draws, at).iters) == bound_cells(sounds),
        k < sounds.length() ==> stream_at(all_taken(sounds, calc, memory, draws, at).iters, k)
            == Some(taken_from(sounds, calc, memory, draws, at, k).iter),
    decreases sounds,
{
    match sounds {
        List::Nil => {},
        List::Cons(head, tail) => {
            let first = taken(head.1, calc, memory, draws, at);
            apply_takes_one_sample_each(
                *tail,
                calc,
                first.memory.with_real(head.0, first.value),
                draws,
                first.at,
                if k == 0 {
                    0
                } else {
                    (k - 1) as nat
                },
            );
        },
    }
}

/// Every sample is a finite real, or not a number: never an infinity.
pub proof fn sample_is_clamped<F: Fn(Operation, Real, Real) -> Real>(
    iter: SoundIter,
    calc: F,
    memory: Memory,
    draws: Seq<Real>,
    at: nat,
)
    ensures
        !taken(iter, calc, memory, draws, at).value.is_infinite(),
{
}

} // verus!
