//! Compiler front end for a small architecture-description language: units
//! declare record types (`data`) and groupings of operations (`module`), and
//! every function describes its spawn graph through annotations. The crate
//! tokenizes and parses source text into an unresolved tree, builds a catalog
//! of every declared name, resolves all type references against it, and
//! verifies type agreement across the checked tree.

pub mod check;
pub mod cli;
pub mod compiler;
pub mod define;
pub mod error;
pub mod laws;
pub mod name;
pub mod parse;
pub mod structure;
pub mod traverse;
pub mod token;
pub mod types;
