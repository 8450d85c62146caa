//! Style resolution for the settings screen of a network monitor, together
//! with the user-facing strings that the screen shows.
//!
//! The screen offers a closed set of built-in palettes and one palette that
//! is read from a file the user names. [`gui::styles`] holds the palette
//! model, the file format, the catalog of built-in styles and the resolver
//! that remembers the last file it validated. [`translations`] holds the
//! phrases.

pub mod gui;
pub mod translations;
