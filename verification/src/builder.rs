//! The semantic builder: walks a parse tree and gathers the entities it
//! declares into a document.
pub mod delegates;
pub mod enums;
pub mod file;
pub mod functions;
pub mod laws;
pub mod primitives;
pub mod properties;
pub mod specifiers;
pub mod types;
