//! A scanner for a small expression/statement language.
//!
//! The library turns raw source text into a stream of classified tokens,
//! each carrying the exact character range and literal text it covers.
//! `span` holds the range type, `classify` the character classification,
//! `model` the mathematical description of what the scanner produces,
//! and `lexer` the scanner itself together with its token types.

pub mod classify;
pub mod lexer;
pub mod model;
pub mod span;
