//! Null logger.
use vstd::prelude::*;
use crate::config::Config;
use crate::error::Error;
use crate::misc::Stage;

verus! {

/// Null logger builder.
///
/// This will create a logger which discards all log records.
#[derive(Debug, Clone, Copy, PartialEq, Eq, Structural)]
pub struct NullLoggerBuilder;

impl NullLoggerBuilder {
    /// Lays out the stages that wrap the sink of this logger: there are
    /// none, so the logger has no background worker and no guard.
    pub fn build(&self) -> (stages: Vec<Stage>)
        ensures
            stages@.len() == 0,
    {
        Vec::new()
    }
}

/// The configuration of `NullLoggerBuilder`.
#[derive(Debug, Clone, Copy, PartialEq, Eq, Structural)]
pub struct NullLoggerConfig {}

impl Config for NullLoggerConfig {
    type Builder = NullLoggerBuilder;

    /// Makes the builder of a null logger. This never fails.
    fn try_to_builder(&self) -> (r: Result<NullLoggerBuilder, Error>)
        ensures
            r is Ok,
    {
        Ok(NullLoggerBuilder)
    }
}

} // verus!
