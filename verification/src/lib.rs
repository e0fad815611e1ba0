//! Matching of local playlist tracks against a remote music catalog.

pub mod command;
pub mod error;
pub mod itunes;
pub mod logging;
pub mod output;
pub mod spotify;
pub mod text;
pub mod types;
pub mod util;
