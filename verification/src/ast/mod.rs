//! The SQL expression syntax tree.

pub mod copies;
pub mod display;
pub mod expr;
pub mod operators;
pub mod types;
