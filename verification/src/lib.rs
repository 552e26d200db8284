//! A small command interpreter front end: one line of text in any of three
//! surface grammars (terse, verbose, named) is turned into one canonical,
//! intent-tagged command, and the command into the file operation that it
//! asks for.

pub mod config;
pub mod error;
pub mod executor;
pub mod parser;
pub mod repl;
pub mod system;
pub mod text;

pub use error::VshError;
