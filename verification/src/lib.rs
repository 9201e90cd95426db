//! Loading a small configuration record from a file, or leaving a blank
//! file for the operator to fill in when none is there yet.
//!
//! The crate holds the rules of that procedure and none of its I/O. The
//! caller opens, reads, creates and writes files and turns text into
//! records and back; after each such operation it reports the outcome to
//! a [`Loader`], which answers with the next operation to perform or with
//! the final result.

pub mod config;
pub mod error;
pub mod history;
pub mod loader;

pub use config::{BotConfig, BotConfigView, PrettyLayout, CONFIG_PATH};
pub use error::{ConfigError, ConfigErrorView};
pub use loader::{Action, ActionView, Event, EventView, Loader, LoaderView, Phase};
