//! A single-pass translator from ladder-logic task descriptions to an
//! imperative scripting form.

pub mod code_generation;
pub mod emitter;
pub mod error;
pub mod laws;
pub mod lexer;
pub mod parse;
pub mod semantics;
pub mod text;
