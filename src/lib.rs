//! Binding synthesis for foreign-language exposure of plain data types.
//!
//! The library reads a declarative description of a struct or an enum,
//! decides which constructors, accessors, variant factories and zero-copy
//! buffer operations the host language gets for it, and provides the
//! growable numeric containers and buffer exchange operations that those
//! bindings run on.
pub mod buffer;
pub mod container;
pub mod descriptor;
pub mod error;
pub mod naming;
pub mod numeric;
pub mod synth;
pub mod text;
