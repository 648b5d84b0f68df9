//! Fluent construction and explanation of regular expressions.
//!
//! A [`Pattern`] is built by chaining combinators, starting from a leaf
//! such as [`digit`] or [`text`]. It renders as a regular expression with
//! [`Pattern::to_string`], and as the builder source that constructs it
//! with [`ToCode::to_code`]. In the other direction, [`explain`] parses a
//! regular expression and gives the pattern that stands for it.
//!
//! Every contract speaks of the [`Expression`] that a pattern stands for:
//! [`render`] and [`code`] define the two renderings of an expression,
//! [`parser`] defines the explanation of a syntax tree, and [`laws`]
//! holds what is proved of them for every tree.

pub mod builder;
pub mod code;
pub mod laws;
pub mod parser;
pub mod render;
pub mod strings;
pub mod syntax;
pub mod upstream;

pub use builder::{
    any_except, anything, at_start, digit, either, letter, start_with, text, word_character,
    Expression, IntoName, IntoPattern, Pattern, PatternList,
};
pub use code::{CodeState, ToCode};
pub use parser::{explain, ExplainError};
