//! The pages of the settings screen.

pub mod settings_style_page;
