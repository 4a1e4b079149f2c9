//! The primitive types of the language.

use vstd::prelude::*;

verus! {

/// The type of an expression: every expression has exactly one.
#[derive(Debug, Clone, Copy, PartialEq, Eq, Structural)]
pub enum Type {
    Real,
    Boolean,
    Sound,
    String,
    Void,
}

impl Type {
    /// The name of the type as it is written in messages.
    pub open spec fn spec_name(self) -> Seq<char> {
        match self {
            Type::Real => "real"@,
            Type::Boolean => "boolean"@,
            Type::Sound => "Sound"@,
            Type::String => "string"@,
            Type::Void => "void"@,
        }
    }

    /// The name of the type as it is written in messages.
    pub fn name(&self) -> (text: &'static str)
        ensures
            text@ == self.spec_name(),
    {
        match self {
            Type::Real => "real",
            Type::Boolean => "boolean",
            Type::Sound => "Sound",
            Type::String => "string",
            Type::Void => "void",
        }
    }
}

} // verus!
