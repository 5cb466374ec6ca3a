//! An editing session that builds an ordered JSON object from key events.
pub mod text;
pub mod json;
pub mod entries;
pub mod app;
pub mod laws;
