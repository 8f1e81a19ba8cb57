//! Deriving every part of the destination tree: the selected template
//! assets and the composed configuration documents.

pub mod config;
pub mod package;
pub mod template;
