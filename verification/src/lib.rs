//! A linting and formatting core for a templating dialect that mixes HTML
//! tags, Twig control blocks and Vue-style interpolation markers.
//!
//! The library holds the tree data model (`ast`), a diagnostic model with a
//! position resolver that maps a failure's byte offset back to its line,
//! column and source line (`error`), a context-aware serializer that
//! reconstructs formatted template text from a tree (`writer`), and the
//! aggregation rules for per-file reports and the run summary (`output`).
//! Reading files, running grammar rules and printing reports are left to the
//! caller.

pub mod ast;
pub mod emit;
pub mod error;
pub mod output;
pub mod writer;
