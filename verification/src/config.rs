//! The configuration of a logger of any kind.
use vstd::prelude::*;
use crate::builder::{LoggerBuilder, LoggerModel};
use crate::error::Error;
use crate::file::FileLoggerConfig;
use crate::null::NullLoggerConfig;
use crate::terminal::{TerminalLoggerConfig, TerminalModel};

verus! {

/// Configuration of a logger builder.
pub trait Config {
    /// Logger builder.
    type Builder;

    /// Makes a logger builder associated with this configuration.
    fn try_to_builder(&self) -> (r: Result<Self::Builder, Error>);
}

/// The configuration of `LoggerBuilder`: that of a file logger, of a null
/// logger or of a terminal logger.
#[allow(missing_docs)]
#[derive(Debug, Clone, PartialEq, Eq)]
pub enum LoggerConfig {
    File(FileLoggerConfig),
    Null(NullLoggerConfig),
    Terminal(TerminalLoggerConfig),
}

impl View for LoggerConfig {
    type V = LoggerModel;

    open spec fn view(&self) -> LoggerModel {
        match self {
            LoggerConfig::File(c) => LoggerModel::File(c@),
            LoggerConfig::Null(_) => LoggerModel::Null,
            LoggerConfig::Terminal(c) => LoggerModel::Terminal(c@),
        }
    }
}

impl Config for LoggerConfig {
    type Builder = LoggerBuilder;

    /// Makes the builder of the same kind that holds what this
    /// configuration holds. This never fails.
    fn try_to_builder(&self) -> (r: Result<LoggerBuilder, Error>)
        ensures
            r matches Ok(builder) && builder@ == self@,
    {
        match self {
            LoggerConfig::File(c) => {
                match c.try_to_builder() {
                    Ok(b) => Ok(LoggerBuilder::File(b)),
                    Err(e) => Err(e),
                }
            },
            LoggerConfig::Null(c) => {
                match c.try_to_builder() {
                    Ok(b) => Ok(LoggerBuilder::Null(b)),
                    Err(e) => Err(e),
                }
            },
            LoggerConfig::Terminal(c) => {
                match c.try_to_builder() {
                    Ok(b) => Ok(LoggerBuilder::Terminal(b)),
                    Err(e) => Err(e),
                }
            },
        }
    }
}

impl Default for LoggerConfig {
    fn default() -> (config: Self)
        ensures
            config@ == LoggerModel::Terminal(TerminalModel::initial()),
    {
        LoggerConfig::Terminal(TerminalLoggerConfig::default())
    }
}

} // verus!
