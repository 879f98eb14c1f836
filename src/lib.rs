//! Projection of a cross-linked content graph (pages, sections, translations)
//! into flat, acyclic view records handed to a template engine.
pub mod content;
pub mod index;
pub mod ser;
pub mod laws;
