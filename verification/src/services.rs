//! What the pipeline computes and decides.

pub mod driver;
pub mod renderer;
pub mod resolution;
pub mod resolver;
pub mod retry;
pub mod switch;
pub mod theme;
pub mod theme_service;
pub mod variables;
pub mod wallpaper;
