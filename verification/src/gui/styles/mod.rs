//! Palettes: their colors, their file format, the built-in catalog and the
//! resolver.

pub mod ascii;
pub mod color;
pub mod gradient_type;
pub mod palette;
pub mod palette_file;
pub mod palette_file_laws;
pub mod style_registry;
pub mod style_resolver;
pub mod text;
