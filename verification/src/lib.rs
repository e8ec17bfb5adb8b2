//! Command-line configuration and validation for a spritesheet generator.
//!
//! The library owns the schema of recognized options, converts raw textual
//! arguments into typed values, enforces the cross-option constraints
//! (mutual exclusion, conditional requirements, numeric ranges, and the
//! existence check on the input directory), and produces a single valid
//! configuration or a validation failure naming the violated rule.

pub mod cli;
pub mod laws;
pub mod numbers;
pub mod parse;
pub mod tokens;
pub mod validate;
