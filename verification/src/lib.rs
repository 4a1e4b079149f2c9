//! A small language for describing and rendering sound.
//!
//! Source text is split into tokens by [`lexer`] and arranged into
//! expressions and sentences by [`parser`]. Syntax trees ([`syntax`]) are
//! lowered by [`compiler`] into the typed programs of [`program`], which
//! [`evaluator`] runs against the cells of a [`store::Store`]; an
//! [`environment::Environment`] holds a session together. Sounds are the
//! lazy signal graphs of [`sound`], which [`wave`] turns into the samples of
//! a sound file.
//!
//! Reals are carried as the bit patterns of IEEE-754 doubles ([`number`]).
//! The library does no floating-point arithmetic of its own: every function
//! that has to compute with reals takes the arithmetic as a function value,
//! and says what it computes in terms of what that function gives. Nor does
//! it print or write files: what a program asks of the outside is left in
//! an [`output::Output`] for the caller to carry out.
//!
//! What the library states beyond the contracts of its functions: the
//! compiler follows the typing rules ([`typing`]), compiled programs only
//! name cells that exist ([`cells`]), and the laws of shifting and sampling
//! ([`sound`]) and of running programs ([`evaluator`]).

pub mod cells;
pub mod compiler;
pub mod environment;
pub mod error;
pub mod evaluator;
pub mod expr;
pub mod function;
pub mod lexer;
pub mod list;
pub mod number;
pub mod output;
pub mod parser;
pub mod pos;
pub mod program;
pub mod report;
pub mod sentence;
pub mod sound;
pub mod store;
pub mod syntax;
pub mod token;
pub mod types;
pub mod typing;
pub mod value;
pub mod wave;
