//! What the settings screen decides before any widget is built.

pub mod pages;
pub mod styles;
