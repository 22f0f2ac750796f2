//! Generates JSDoc `@typedef` comment blocks from a collection of named
//! schema definitions.
//!
//! The crate has two parts: a resolver that turns one schema node into a
//! textual type expression, and a builder that accumulates tagged lines into
//! one delimited comment block. Reading the schema document and writing the
//! assembled blocks to a file are left to the surrounding program.

pub mod builder;
pub mod schema;
pub mod resolver;
pub mod laws;
