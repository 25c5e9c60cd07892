//! Half-open spans over ordered scalars, together with the access scopes,
//! content types and small command-line helpers that are built around them.

pub mod attributes;
pub mod cli;
pub mod colors;
pub mod config;
pub mod errors;
pub mod scalar;
pub mod scopes;
pub mod span;
pub mod tasks;
pub mod text;
pub mod vlm;
pub mod web;
