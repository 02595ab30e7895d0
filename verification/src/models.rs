//! The values the pipeline works on.

pub mod hex_color;
pub mod rgba_color;
pub mod theme;
