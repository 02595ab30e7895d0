//! Paths, as the pipeline writes them.

pub mod paths;
