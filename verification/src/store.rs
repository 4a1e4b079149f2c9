//! Storage cells.
//!
//! Every variable and every argument of a function lives in a cell. A cell
//! has a type, which never changes, and a place among the cells of its type,
//! by which programs refer to it. All who hold the place of a cell read what
//! was last written to it.

use vstd::prelude::*;
use crate::number::Real;
use crate::sound::{silence, Sound};
use crate::value::Value;

verus! {

/// The cells of a running program.
#[derive(Debug, PartialEq, Eq)]
pub struct Store {
    reals: Vec<Real>,
    booleans: Vec<bool>,
    sounds: Vec<Sound>,
    strings: Vec<String>,
}

/// What the cells hold: the mathematical value of a [`Store`].
pub struct Memory {
    pub reals: Seq<Real>,
    pub booleans: Seq<bool>,
    pub sounds: Seq<Sound>,
    pub strings: Seq<Seq<char>>,
}

impl Memory {
    /// No cells at all.
    pub open spec fn empty() -> Memory {
        Memory {
            reals: Seq::empty(),
            booleans: Seq::empty(),
            sounds: Seq::empty(),
            strings: Seq::empty(),
        }
    }

    /// Whether the cell that a handle names exists.
    pub open spec fn has(self, value: Value) -> bool {
        match value {
            Value::Real(cell) => cell < self.reals.len(),
            Value::Boolean(cell) => cell < self.booleans.len(),
            Value::Sound(cell) => cell < self.sounds.len(),
            Value::String(cell) => cell < self.strings.len(),
        }
    }

    /// What a real cell holds; zero where there is no such cell.
    pub open spec fn read_real(self, cell: usize) -> Real {
        if cell < self.reals.len() {
            self.reals[cell as int]
        } else {
            Real { bits: 0 }
        }
    }

    /// What a boolean cell holds; false where there is no such cell.
    pub open spec fn read_boolean(self, cell: usize) -> bool {
        if cell < self.booleans.len() {
            self.booleans[cell as int]
        } else {
            false
        }
    }

    /// What a sound cell holds; silence where there is no such cell.
    pub open spec fn read_sound(self, cell: usize) -> Sound {
        if cell < self.sounds.len() {
            self.sounds[cell as int]
        } else {
            silence()
        }
    }

    /// What a string cell holds; the empty string where there is no such
    /// cell.
    pub open spec fn read_string(self, cell: usize) -> Seq<char> {
        if cell < self.strings.len() {
            self.strings[cell as int]
        } else {
            Seq::empty()
        }
    }

    /// The memory after a write to a real cell. A write to a cell that does
    /// not exist changes nothing.
    pub open spec fn with_real(self, cell: usize, value: Real) -> Memory {
        if cell < self.reals.len() {
            Memory { reals: self.reals.update(cell as int, value), ..self }
        } else {
            self
        }
    }

    /// The memory after a write to a boolean cell.
    pub open spec fn with_boolean(self, cell: usize, value: bool) -> Memory {
        if cell < self.booleans.len() {
            Memory { booleans: self.booleans.update(cell as int, value), ..self }
        } else {
            self
        }
    }

    /// The memory after a write to a sound cell.
    pub open spec fn with_sound(self, cell: usize, value: Sound) -> Memory {
        if cell < self.sounds.len() {
            Memory { sounds: self.sounds.update(cell as int, value), ..self }
        } else {
            self
        }
    }

    /// The memory after a write to a string cell.
    pub open spec fn with_string(self, cell: usize, value: Seq<char>) -> Memory {
        if cell < self.strings.len() {
            Memory { strings: self.strings.update(cell as int, value), ..self }
        } else {
            self
        }
    }

    /// The memory with one more real cell, which holds zero.
    pub open spec fn with_new_real(self) -> Memory {
        Memory { reals: self.reals.push(Real { bits: 0 }), ..self }
    }

    /// The memory with one more boolean cell, which holds false.
    pub open spec fn with_new_boolean(self) -> Memory {
        Memory { booleans: self.booleans.push(false), ..self }
    }

    /// The memory with one more sound cell, which holds silence.
    pub open spec fn with_new_sound(self) -> Memory {
        Memory { sounds: self.sounds.push(silence()), ..self }
    }

    /// The memory with one more string cell, which holds the empty string.
    pub open spec fn with_new_string(self) -> Memory {
        Memory { strings: self.strings.push(Seq::empty()), ..self }
    }

    /// Whether `later` has every cell of `self`, and maybe more.
    pub open spec fn within(self, later: Memory) -> bool {
        &&& self.reals.len() <= later.reals.len()
        &&& self.booleans.len() <= later.booleans.len()
        &&& self.sounds.len() <= later.sounds.len()
        &&& self.strings.len() <= later.strings.len()
    }
}

impl View for Store {
    type V = Memory;

    closed spec fn view(&self) -> Memory {
        Memory {
            reals: self.reals@,
            booleans: self.booleans@,
            sounds: self.sounds@,
            strings: Seq::new(self.strings@.len(), |i: int| self.strings@[i]@),
        }
    }
}

impl Store {
    /// A store without cells.
    pub fn new() -> (store: Store)
        ensures
            store@ == Memory::empty(),
    {
        let store = Store {
            reals: Vec::new(),
            booleans: Vec::new(),
            sounds: Vec::new(),
            strings: Vec::new(),
        };
        assert(store@.strings =~= Seq::empty());
        store
    }

    /// Whether the cell that a handle names exists.
    pub fn has(&self, value: Value) -> (yes: bool)
        ensures
            yes == self@.has(value),
    {
        match value {
            Value::Real(cell) => cell < self.reals.len(),
            Value::Boolean(cell) => cell < self.booleans.len(),
            Value::Sound(cell) => cell < self.sounds.len(),
            Value::String(cell) => cell < self.strings.len(),
        }
    }

    /// Makes a real cell that holds zero, and gives its place.
    pub fn new_real(&mut self) -> (cell: usize)
        ensures
            final(self)@ == old(self)@.with_new_real(),
            cell == old(self)@.reals.len(),
    {
        let cell: usize = self.reals.len();
        self.reals.push(Real { bits: 0 });
        assert(self@.strings =~= old(self)@.strings);
        cell
    }

    /// Makes a boolean cell that holds false, and gives its place.
    pub fn new_boolean(&mut self) -> (cell: usize)
        ensures
            final(self)@ == old(self)@.with_new_boolean(),
            cell == old(self)@.booleans.len(),
    {
        let cell: usize = self.booleans.len();
        self.booleans.push(false);
        assert(self@.strings =~= old(self)@.strings);
        cell
    }

    /// Makes a sound cell that holds silence, and gives its place.
    pub fn new_sound(&mut self) -> (cell: usize)
        ensures
            final(self)@ == old(self)@.with_new_sound(),
            cell == old(self)@.sounds.len(),
    {
        let cell: usize = self.sounds.len();
        self.sounds.push(Sound::Const(Real { bits: 0 }));
        assert(self@.strings =~= old(self)@.strings);
        cell
    }

    /// Makes a string cell that holds the empty string, and gives its place.
    pub fn new_string(&mut self) -> (cell: usize)
        ensures
            final(self)@ == old(self)@.with_new_string(),
            cell == old(self)@.strings.len(),
    {
        let cell: usize = self.strings.len();
        self.strings.push(String::new());
        assert(self@.strings =~= old(self)@.strings.push(Seq::empty()));
        cell
    }

    /// Reads a real cell.
    pub fn read_real(&self, cell: usize) -> (value: Real)
        ensures
            value == self@.read_real(cell),
    {
        if cell < self.reals.len() {
            self.reals[cell]
        } else {
            Real { bits: 0 }
        }
    }

    /// Reads a boolean cell.
    pub fn read_boolean(&self, cell: usize) -> (value: bool)
        ensures
            value == self@.read_boolean(cell),
    {
        if cell < self.booleans.len() {
            self.booleans[cell]
        } else {
            false
        }
    }

    /// Reads a sound cell.
    pub fn read_sound(&self, cell: usize) -> (value: Sound)
        ensures
            value == self@.read_sound(cell),
    {
        if cell < self.sounds.len() {
            self.sounds[cell].duplicate()
        } else {
            Sound::Const(Real { bits: 0 })
        }
    }

    /// Reads a string cell.
    pub fn read_string(&self, cell: usize) -> (value: String)
        ensures
            value@ == self@.read_string(cell),
    {
        if cell < self.strings.len() {
            self.strings[cell].clone()
        } else {
            String::new()
        }
    }

    /// Writes a real cell.
    pub fn write_real(&mut self, cell: usize, value: Real)
        ensures
            final(self)@ == old(self)@.with_real(cell, value),
    {
        if cell < self.reals.len() {
            self.reals.set(cell, value);
            assert(self@.strings =~= old(self)@.strings);
        }
    }

    /// Writes a boolean cell.
    pub fn write_boolean(&mut self, cell: usize, value: bool)
        ensures
            final(self)@ == old(self)@.with_boolean(cell, value),
    {
        if cell < self.booleans.len() {
            self.booleans.set(cell, value);
            assert(self@.strings =~= old(self)@.strings);
        }
    }

    /// Writes a sound cell.
    pub fn write_sound(&mut self, cell: usize, value: Sound)
        ensures
            final(self)@ == old(self)@.with_sound(cell, value),
    {
        if cell < self.sounds.len() {
            self.sounds.set(cell, value);
            assert(self@.strings =~= old(self)@.strings);
        }
    }

    /// Writes a string cell.
    pub fn write_string(&mut self, cell: usize, value: String)
        ensures
            final(self)@ == old(self)@.with_string(cell, value@),
    {
        if cell < self.strings.len() {
            self.strings.set(cell, value);
            assert(self@.strings =~= old(self)@.strings.update(cell as int, value@));
        }
    }
}

/// A read of a cell that exists gives what was last written to it, and a
/// write to one cell leaves every other cell as it was.
pub proof fn read_after_write(
    memory: Memory,
    cell: usize,
    other: usize,
    number: Real,
    truth: bool,
    signal: Sound,
    text: Seq<char>,
)
    ensures
        memory.has(Value::Real(cell)) ==> memory.with_real(cell, number).read_real(cell) == number,
        memory.has(Value::Boolean(cell)) ==> memory.with_boolean(cell, truth).read_boolean(cell)
            == truth,
        memory.has(Value::Sound(cell)) ==> memory.with_sound(cell, signal).read_sound(cell) == signal,
        memory.has(Value::String(cell)) ==> memory.with_string(cell, text).read_string(cell)
            == text,
        other != cell ==> memory.with_real(cell, number).read_real(other) == memory.read_real(other),
        other != cell ==> memory.with_boolean(cell, truth).read_boolean(other) == memory.read_boolean(
            other,
        ),
        other != cell ==> memory.with_sound(cell, signal).read_sound(other) == memory.read_sound(other),
        other != cell ==> memory.with_string(cell, text).read_string(other) == memory.read_string(other),
{
}

/// A write makes no cell and removes none.
pub proof fn write_keeps_cells(
    memory: Memory,
    cell: usize,
    number: Real,
    truth: bool,
    signal: Sound,
    text: Seq<char>,
    value: Value,
)
    ensures
        memory.with_real(cell, number).has(value) == memory.has(value),
        memory.with_boolean(cell, truth).has(value) == memory.has(value),
        memory.with_sound(cell, signal).has(value) == memory.has(value),
        memory.with_string(cell, text).has(value) == memory.has(value),
{
}

} // verus!
