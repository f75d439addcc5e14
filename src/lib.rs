//! Elm type declarations and JSON codecs generated from a humble schema.

pub mod ast;
pub mod text;
pub mod names;
pub mod decl;
pub mod keys;
pub mod decode;
pub mod encode;
pub mod module;
pub mod laws;
