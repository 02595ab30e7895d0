//! Theme compilation for a desktop environment.
//!
//! One theme, defined by a file of variables with nested imports, is turned
//! into the configuration files of several programs, which are then told to
//! reload. This library holds the logic of that pipeline: resolving the
//! variables (`services::variables`, `services::resolver`), converting
//! colours (`models`), rendering the files (`services::renderer`), choosing
//! a wallpaper (`services::wallpaper`), retrying its reload
//! (`services::retry`), and sequencing it all (`services::switch`).
//!
//! The library touches no file and starts no program. A switch names one
//! action at a time (`services::driver`); the host carries it out, reports
//! what came of it, and the switch decides what comes next. Every function
//! is specified over sequences of characters and verified against its
//! specification; the calls into other crates are gathered in `bindings`.

pub mod bindings;
pub mod error;
pub mod models;
pub mod services;
pub mod text;
pub mod utils;
