//! File logger.
use vstd::prelude::*;
use vstd::string::StringExecFns;
use crate::config::Config;
use crate::error::Error;
use crate::filter::{EvaluationOrder, KVFilterConfig};
use crate::misc::{Stage, StageModel, build_with_drain, default_channel_size, layering, stages_view};
use crate::types::{FilterConfig, FilterConfigModel, Format, Severity, SourceLocation, TimeZone};

verus! {

/// What the configuration of a file logger holds, as plain values.
pub struct FileModel {
    pub format: Format,
    pub source_location: SourceLocation,
    pub timezone: TimeZone,
    pub timestamp_template: Seq<char>,
    pub path: Seq<char>,
    pub channel_size: usize,
    pub truncate: bool,
    pub rotate_size: u64,
    pub rotate_keep: usize,
    pub rotate_compress: bool,
    pub evaluation_order: EvaluationOrder,
    pub filter_config: FilterConfigModel,
}

impl FileModel {
    /// The configuration in which every field has its default: an empty
    /// path, no truncation, and a file that is rotated only at a size that is
    /// never reached in practice.
    pub open spec fn initial() -> FileModel {
        FileModel {
            format: Format::Full,
            source_location: SourceLocation::ModuleAndLine,
            timezone: TimeZone::Local,
            timestamp_template: "%Y%m%d_%H%M"@,
            path: Seq::empty(),
            channel_size: 1024,
            truncate: false,
            rotate_size: 9223372036854775807,
            rotate_keep: 8,
            rotate_compress: false,
            evaluation_order: EvaluationOrder::LoggerAndMessage,
            filter_config: FilterConfigModel::threshold_only(Severity::Info),
        }
    }

    /// The stages of the logger that this configuration describes, from the
    /// sink outwards.
    pub open spec fn stages(self) -> Seq<StageModel> {
        layering(
            self.channel_size,
            self.filter_config.compiled(),
            self.evaluation_order,
            self.source_location,
        )
    }
}

/// The configuration of `FileLoggerBuilder`.
///
/// The file itself, its rotation and the compression of rotated files are
/// the work of the sink; this value only says what was asked for.
#[derive(Debug, Clone, PartialEq, Eq)]
pub struct FileLoggerConfig {
    /// Log record format.
    pub format: Format,
    /// Source code location.
    pub source_location: SourceLocation,
    /// Time zone.
    pub timezone: TimeZone,
    /// The template of the timestamp that is put into the name of a rotated file.
    pub timestamp_template: String,
    /// The path of the log file.
    pub path: String,
    /// Asynchronous channel size.
    pub channel_size: usize,
    /// Whether an existing file is emptied when it is opened.
    pub truncate: bool,
    /// The size in bytes beyond which the file is rotated.
    pub rotate_size: u64,
    /// How many rotated files are kept.
    pub rotate_keep: usize,
    /// Whether rotated files are compressed.
    pub rotate_compress: bool,
    /// The order in which the two scopes of a record's fields are looked at
    /// by the filter.
    pub evaluation_order: EvaluationOrder,
    /// The filter (includes the general severity threshold).
    pub filter_config: FilterConfig,
}

impl View for FileLoggerConfig {
    type V = FileModel;

    open spec fn view(&self) -> FileModel {
        FileModel {
            format: self.format,
            source_location: self.source_location,
            timezone: self.timezone,
            timestamp_template: self.timestamp_template@,
            path: self.path@,
            channel_size: self.channel_size,
            truncate: self.truncate,
            rotate_size: self.rotate_size,
            rotate_keep: self.rotate_keep,
            rotate_compress: self.rotate_compress,
            evaluation_order: self.evaluation_order,
            filter_config: self.filter_config@,
        }
    }
}

impl Default for FileLoggerConfig {
    fn default() -> (config: Self)
        ensures
            config@ == FileModel::initial(),
    {
        FileLoggerConfig {
            format: Format::default(),
            source_location: SourceLocation::default(),
            timezone: TimeZone::default(),
            timestamp_template: String::from_str("%Y%m%d_%H%M"),
            path: String::new(),
            channel_size: default_channel_size(),
            truncate: false,
            rotate_size: 9223372036854775807,
            rotate_keep: 8,
            rotate_compress: false,
            evaluation_order: EvaluationOrder::default(),
            filter_config: FilterConfig::default(),
        }
    }
}

/// A logger builder which build loggers that write log records to a file.
#[derive(Debug)]
pub struct FileLoggerBuilder {
    config: FileLoggerConfig,
}

impl View for FileLoggerBuilder {
    type V = FileModel;

    closed spec fn view(&self) -> FileModel {
        self.config@
    }
}

impl FileLoggerBuilder {
    /// What this builder was asked for.
    pub fn config(&self) -> (config: &FileLoggerConfig)
        ensures
            config@ == self@,
    {
        &self.config
    }

    /// Lays out the stages that wrap the sink of this logger, from the sink
    /// outwards.
    pub fn build_with_drain(&self) -> (stages: Vec<Stage>)
        ensures
            stages_view(stages@) == self@.stages(),
    {
        let filter_spec = self.config.filter_config.to_filter_spec();
        build_with_drain(
            self.config.channel_size,
            KVFilterConfig { filter_spec, evaluation_order: self.config.evaluation_order },
            self.config.source_location,
        )
    }
}

impl Config for FileLoggerConfig {
    type Builder = FileLoggerBuilder;

    /// Makes the builder that holds what this configuration holds. This
    /// never fails.
    fn try_to_builder(&self) -> (r: Result<FileLoggerBuilder, Error>)
        ensures
            r matches Ok(builder) && builder@ == self@,
    {
        let config = FileLoggerConfig {
            format: self.format,
            source_location: self.source_location,
            timezone: self.timezone,
            timestamp_template: self.timestamp_template.clone(),
            path: self.path.clone(),
            channel_size: self.channel_size,
            truncate: self.truncate,
            rotate_size: self.rotate_size,
            rotate_keep: self.rotate_keep,
            rotate_compress: self.rotate_compress,
            evaluation_order: self.evaluation_order,
            filter_config: self.filter_config.duplicate(),
        };
        Ok(FileLoggerBuilder { config })
    }
}

} // verus!
