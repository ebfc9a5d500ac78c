//! Extraction of documentation entities from the parse tree of an annotated
//! C++ header: enumerations, structs, classes, properties, functions and
//! delegates, gathered into a [`document::Document`], and the rendering of
//! that document as the markdown pages of a book.
pub mod builder;
pub mod collection;
pub mod document;
pub mod manifest;
pub mod markdown;
pub mod pages;
pub mod policy;
pub mod text;
pub mod tree;
