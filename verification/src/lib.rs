//! A single-pass lexical scanner that classifies and strips comments and
//! string-like literals from a sequence of source characters.
//!
//! The scanner walks the source once with two independent cursors: one over
//! the source buffer, one over the result buffer. Every recognized construct
//! (line comment, block comment, string literal, byte-string literal,
//! raw-string literal, whitespace run) is recorded as a [`span::Comment`]
//! descriptor and replaced in the result buffer by a short substitute that
//! cannot merge the surrounding tokens; every other character is copied
//! through unchanged.

pub mod laws;
pub mod model;
pub mod scanner;
pub mod span;
