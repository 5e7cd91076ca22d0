//! Derivation engine for formatting-trait delegation.
//!
//! Given the model of a record or tagged-union type declaration, the library
//! locates the single field whose own formatting implementation the container
//! should reuse, merges container-level configuration, and emits the source
//! text of a complete formatting-trait implementation that delegates to that
//! field.  Every step is specified and verified: which field wins, which
//! inputs are rejected, and the exact text that is produced.

pub mod text;
pub mod model;
pub mod resolve;
pub mod opts;
pub mod synth;
pub mod driver;
pub mod render;
pub mod laws;
