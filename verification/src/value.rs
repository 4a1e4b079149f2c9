//! Handles on storage cells.

use vstd::prelude::*;
use crate::types::Type;

verus! {

/// A handle on a storage cell: the type of the cell and its place among the
/// cells of that type. Two handles that are equal name the same cell, so
/// every holder of a handle sees what any other wrote.
#[derive(Debug, Clone, Copy, PartialEq, Eq, Structural)]
pub enum Value {
    Real(usize),
    Boolean(usize),
    Sound(usize),
    String(usize),
}

impl Value {
    /// The type of the cell.
    pub open spec fn spec_ty(self) -> Type {
        match self {
            Value::Real(_) => Type::Real,
            Value::Boolean(_) => Type::Boolean,
            Value::Sound(_) => Type::Sound,
            Value::String(_) => Type::String,
        }
    }

    /// The place of the cell among the cells of its type.
    pub open spec fn cell(self) -> usize {
        match self {
            Value::Real(cell) => cell,
            Value::Boolean(cell) => cell,
            Value::Sound(cell) => cell,
            Value::String(cell) => cell,
        }
    }

    /// The type of the cell.
    pub fn ty(&self) -> (ty: Type)
        ensures
            ty == self.spec_ty(),
            ty != Type::Void,
    {
        match self {
            Value::Real(_) => Type::Real,
            Value::Boolean(_) => Type::Boolean,
            Value::Sound(_) => Type::Sound,
            Value::String(_) => Type::String,
        }
    }
}

} // verus!
