//! Composition engine for scaffolding a new frontend project: a typed
//! document model, a selector that layers template groups, and pure
//! composer functions deriving each generated configuration document
//! from the immutable set of user choices.

pub mod emit;
pub mod engine;
pub mod file;
pub mod json;
pub mod log;
pub mod pkg;
pub mod prompts;
pub mod render;
pub mod text;
