//! Runtime value rendering for compiled templates: a `Render` capability
//! that writes a value's text into an append-only `Buffer`, verbatim or
//! with markup escaping.
pub mod buffer;
pub mod decimal;
pub mod escape;
pub mod laws;
pub mod path;
pub mod render;
