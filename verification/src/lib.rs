//! Resolution of the process environment into one validated configuration
//! snapshot, [`Ctx`], with the conversion primitives that it rests on.
//!
//! The environment is handed in as a snapshot, [`Env`]; what a resolution
//! needs to know of the file system is handed in as the outcomes of probes.
//! A resolution returns the snapshot or the one [`ConfigError`] that stopped it.

pub mod context;
pub mod datetime;
pub mod dict;
pub mod duration;
pub mod env;
pub mod error;
pub mod list;
pub mod log;
pub mod number;
pub mod pattern;
pub mod probe;
pub mod setting;
pub mod text;

pub use context::Ctx;
pub use env::{env_is_empty, env_is_set, env_number, env_or_default, Env};
pub use error::ConfigError;
pub use log::{fatal_no_log, fatal_no_log_str};
pub use number::{string_to_num, string_to_num_must};
pub use probe::Probe;
