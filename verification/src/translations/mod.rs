//! Localized strings, one function per phrase.

pub mod language;
pub mod translations;
pub mod translations_3;
