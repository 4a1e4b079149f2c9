//! Sentences: what stands before a semicolon.

use vstd::prelude::*;
use crate::error::Error;
use crate::expr::{converted, Expr, PExpr, PPreExpr};
use crate::pos::Range;

verus! {

/// A sentence with its integers read.
#[derive(Debug, PartialEq, Eq)]
pub enum Sentence {
    /// An expression, or nothing, before a semicolon.
    Expr(Option<PExpr>),
}

/// A sentence as the parser reads it.
#[derive(Debug, PartialEq, Eq)]
pub enum PreSentence {
    /// An expression, or nothing, before a semicolon.
    Expr(Option<PPreExpr>),
}

/// A sentence and its place in the source.
pub type PPreSentence = (Range, PreSentence);

/// A sentence and its place in the source.
pub type PSentence = (Range, Sentence);

/// The sentence with its integers read, or the error of the first literal
/// that names no 32-bit integer.
pub open spec fn converted_sentence(sentence: PreSentence) -> Result<Sentence, Error> {
    match sentence {
        PreSentence::Expr(None) => Ok(Sentence::Expr(None)),
        PreSentence::Expr(Some(expression)) => match converted(expression.0, expression.1) {
            Err(error) => Err(error),
            Ok(inner) => Ok(Sentence::Expr(Some((expression.0, inner)))),
        },
    }
}

impl Sentence {
    /// Reads the integers of a sentence.
    pub fn from(pre_sentence: PreSentence) -> (result: Result<Sentence, Error>)
        ensures
            result == converted_sentence(pre_sentence),
    {
        match pre_sentence {
            PreSentence::Expr(None) => Ok(Sentence::Expr(None)),
            PreSentence::Expr(Some(expression)) => match Expr::from(expression.0, expression.1) {
                Err(error) => Err(error),
                Ok(inner) => Ok(Sentence::Expr(Some((expression.0, inner)))),
            },
        }
    }
}

} // verus!
