//! Rendering: from the samples of a sound to the samples of a sound file.
//!
//! A sound file holds one channel of 32-bit integers, 44100 in a second.

use vstd::prelude::*;
use crate::number::{apply, lawful, result_of, Operation, Real};
use crate::sound::{samples_before, taken, SoundIter};
use crate::store::Store;

verus! {

/// The number of samples in a second.
pub const SAMPLE_RATE: u32 = 44100;

/// The bits of the number of samples in a second, as a real.
pub const RATE: u64 = 0x40E5_8880_0000_0000;

/// The bits of the largest sample of a sound file, as a real.
pub const AMPLITUDE: u64 = 0x41DF_FFFF_FFC0_0000;

/// The sample of a sound file for a sample of a sound: the sample scaled
/// by the largest integer of 32 bits, what lies behind the point cut off,
/// and the nearest bound where that does not fit. What is not a number
/// gives zero.
pub open spec fn quantized<F: Fn(Operation, Real, Real) -> Real>(calc: F, sample: Real) -> i32 {
    let scaled = result_of(calc, Operation::Multiply, Real { bits: AMPLITUDE }, sample).whole();
    if scaled > i32::MAX {
        i32::MAX
    } else if scaled < i32::MIN {
        i32::MIN
    } else {
        scaled as i32
    }
}

/// The number of samples of a duration in seconds: the duration times the
/// number of samples in a second, rounded toward zero.
pub open spec fn duration<F: Fn(Operation, Real, Real) -> Real>(calc: F, seconds: Real) -> i64 {
    samples_before(calc, seconds, Real { bits: RATE })
}

/// Turns a sample of a sound into a sample of a sound file.
pub fn quantize<F: Fn(Operation, Real, Real) -> Real>(calc: &F, sample: Real) -> (value: i32)
    requires
        lawful(*calc),
    ensures
        value == quantized(*calc, sample),
{
    let scaled: i64 = apply(calc, Operation::Multiply, Real { bits: AMPLITUDE }, sample).to_integer();
    if scaled > 0x7FFF_FFFF {
        i32::MAX
    } else if scaled < -0x8000_0000 {
        i32::MIN
    } else {
        scaled as i32
    }
}

/// The number of samples to render for a duration in seconds. A duration
/// below zero gives a number below zero: there is nothing to render.
pub fn sample_count<F: Fn(Operation, Real, Real) -> Real>(calc: &F, seconds: Real) -> (count: i64)
    requires
        lawful(*calc),
    ensures
        count == duration(*calc, seconds),
{
    apply(calc, Operation::Multiply, seconds, Real { bits: RATE }).to_integer()
}

impl SoundIter {
    /// Takes the next sample of the stream as a sample of a sound file.
    pub fn next_sample<F: Fn(Operation, Real, Real) -> Real>(
        &mut self,
        calc: &F,
        store: &mut Store,
        draws: &Vec<Real>,
    ) -> (value: i32)
        requires
            lawful(*calc),
        ensures
            value == quantized(*calc, taken(*old(self), *calc, old(store)@, draws@, 0).value),
            *final(self) == taken(*old(self), *calc, old(store)@, draws@, 0).iter,
            final(store)@ == taken(*old(self), *calc, old(store)@, draws@, 0).memory,
    {
        let sample = self.next(calc, store, draws);
        quantize(calc, sample)
    }
}

} // verus!
