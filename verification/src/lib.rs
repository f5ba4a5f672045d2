//! Configuration-driven assembly of structured loggers.
//!
//! A configuration value names a destination (terminal, file, or a sink that
//! discards everything), a record filter and the stages that stand between the
//! caller and the sink. This crate holds the rules: the filter expressions and
//! their evaluation, the compilation of the convenience filter shapes, the
//! choice of a terminal decorator, and the order in which the stages of a
//! logger are layered.
use vstd::prelude::*;

pub mod builder;
pub mod config;
pub mod error;
pub mod file;
pub mod filter;
pub mod misc;
pub mod null;
pub mod terminal;
pub mod types;

pub use builder::LoggerBuilder;
pub use config::{Config, LoggerConfig};
pub use error::{Error, ErrorKind};

verus! {

/// A specialized `Result` type for this crate.
pub type Result<T> = core::result::Result<T, Error>;

} // verus!
