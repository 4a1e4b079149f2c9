//! What a running program asks of the outside.
//!
//! The library prints nothing and writes no file. A program that prints or
//! renders leaves an effect in the output, in the order in which the effects
//! arise, and the caller carries them out.

use vstd::prelude::*;
use crate::number::Real;
use crate::sound::Sound;
use crate::store::Memory;

verus! {

/// Something for the caller to carry out.
#[derive(Debug, PartialEq, Eq)]
pub enum Effect {
    /// Print a real and a line end.
    Real(Real),
    /// Print a truth value and a line end.
    Boolean(bool),
    /// Print a string and a line end.
    Text(String),
    /// Render a sound for a number of seconds into the file at a path.
    Write { sound: Sound, seconds: Real, path: String },
}

/// The mathematical value of an [`Effect`].
pub enum Event {
    Real(Real),
    Boolean(bool),
    Text(Seq<char>),
    Write { sound: Sound, seconds: Real, path: Seq<char> },
}

impl View for Effect {
    type V = Event;

    open spec fn view(&self) -> Event {
        match *self {
            Effect::Real(value) => Event::Real(value),
            Effect::Boolean(value) => Event::Boolean(value),
            Effect::Text(text) => Event::Text(text@),
            Effect::Write { sound, seconds, path } => Event::Write { sound, seconds, path: path@ },
        }
    }
}

/// The effects of a program so far, oldest first.
#[derive(Debug, PartialEq, Eq)]
pub struct Output {
    effects: Vec<Effect>,
}

impl View for Output {
    type V = Seq<Event>;

    closed spec fn view(&self) -> Seq<Event> {
        Seq::new(self.effects@.len(), |i: int| self.effects@[i]@)
    }
}

impl Output {
    /// An output without effects.
    pub fn new() -> (output: Output)
        ensures
            output@ == Seq::<Event>::empty(),
    {
        let output = Output { effects: Vec::new() };
        assert(output@ =~= Seq::<Event>::empty());
        output
    }

    /// Puts an effect behind those that are there.
    pub fn push(&mut self, effect: Effect)
        ensures
            final(self)@ == old(self)@.push(effect@),
    {
        self.effects.push(effect);
        assert(self@ =~= old(self)@.push(effect@));
    }

    /// The number of effects.
    pub fn len(&self) -> (n: usize)
        ensures
            n == self@.len(),
    {
        self.effects.len()
    }

    /// Hands the effects out, oldest first, and leaves none.
    pub fn take(&mut self) -> (effects: Vec<Effect>)
        ensures
            final(self)@ == Seq::<Event>::empty(),
            effects@.len() == old(self)@.len(),
            forall|i: int| 0 <= i < effects@.len() ==> (#[trigger] effects@[i])@ == old(self)@[i],
    {
        let mut effects: Vec<Effect> = Vec::new();
        core::mem::swap(&mut self.effects, &mut effects);
        assert(self@ =~= Seq::<Event>::empty());
        effects
    }
}

/// The state of a running program: what the cells hold and what has been
/// asked of the outside.
pub struct State {
    pub memory: Memory,
    pub output: Seq<Event>,
}

} // verus!
