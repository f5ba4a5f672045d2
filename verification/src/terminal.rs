//! Terminal logger.
use vstd::prelude::*;
use crate::config::Config;
use crate::error::Error;
use crate::filter::{EvaluationOrder, KVFilterConfig};
use crate::misc::{Stage, StageModel, build_with_drain, default_channel_size, layering, stages_view};
use crate::types::{FilterConfig, FilterConfigModel, Format, Severity, SourceLocation, TimeZone};

verus! {

/// The destination to which log records will be outputted.
#[derive(Debug, Clone, Copy, PartialEq, Eq, Structural)]
pub enum Destination {
    /// Standard output.
    Stdout,
    /// Standard error.
    Stderr,
}

impl Default for Destination {
    fn default() -> (r: Self)
        ensures
            r == Destination::Stdout,
    {
        Destination::Stdout
    }
}

/// The decorator through which a terminal logger writes its records.
#[derive(Debug, Clone, Copy, PartialEq, Eq, Structural)]
pub enum Decorator {
    /// A decorator that knows the capabilities of the terminal, such as
    /// colors, bound to the given stream.
    Term(Destination),
    /// Plain text on standard output.
    PlainStdout,
    /// Plain text on standard error.
    PlainStderr,
}

impl Decorator {
    /// The stream that this decorator writes to.
    pub open spec fn stream(self) -> Destination {
        match self {
            Decorator::Term(destination) => destination,
            Decorator::PlainStdout => Destination::Stdout,
            Decorator::PlainStderr => Destination::Stderr,
        }
    }

    /// Whether this decorator writes plain text.
    pub open spec fn is_plain(self) -> bool {
        !(self is Term)
    }

    /// The stream that this decorator writes to.
    pub fn destination(&self) -> (stream: Destination)
        ensures
            stream == self.stream(),
    {
        match *self {
            Decorator::Term(destination) => destination,
            Decorator::PlainStdout => Destination::Stdout,
            Decorator::PlainStderr => Destination::Stderr,
        }
    }
}

impl Destination {
    /// The decorator that is used for this destination: the one that knows
    /// the terminal where it could be acquired, else the plain one of the
    /// same stream.
    pub open spec fn resolved(self, term_acquired: bool) -> Decorator {
        if term_acquired {
            Decorator::Term(self)
        } else {
            match self {
                Destination::Stdout => Decorator::PlainStdout,
                Destination::Stderr => Decorator::PlainStderr,
            }
        }
    }

    /// Chooses the decorator for this destination, given whether a decorator
    /// that knows the terminal could be acquired for it. Where it could not,
    /// the plain decorator of the same stream is chosen.
    pub fn to_decorator(&self, term_acquired: bool) -> (decorator: Decorator)
        ensures
            decorator == self.resolved(term_acquired),
            decorator.stream() == *self,
            decorator.is_plain() <==> !term_acquired,
    {
        if term_acquired {
            Decorator::Term(*self)
        } else {
            match *self {
                Destination::Stdout => Decorator::PlainStdout,
                Destination::Stderr => Decorator::PlainStderr,
            }
        }
    }
}

/// What the configuration of a terminal logger holds, as plain values.
pub struct TerminalModel {
    pub format: Format,
    pub source_location: SourceLocation,
    pub timezone: TimeZone,
    pub destination: Destination,
    pub channel_size: usize,
    pub evaluation_order: EvaluationOrder,
    pub filter_config: FilterConfigModel,
}

impl TerminalModel {
    /// The configuration in which every field has its default.
    pub open spec fn initial() -> TerminalModel {
        TerminalModel {
            format: Format::Full,
            source_location: SourceLocation::ModuleAndLine,
            timezone: TimeZone::Local,
            destination: Destination::Stdout,
            channel_size: 1024,
            evaluation_order: EvaluationOrder::LoggerAndMessage,
            filter_config: FilterConfigModel::threshold_only(Severity::Info),
        }
    }

    /// The stages of the logger that this configuration describes, from the
    /// sink outwards.
    pub open spec fn stages(self) -> Seq<StageModel> {
        layering(
            self.channel_size,
            self.filter_config.compiled(),
            self.evaluation_order,
            self.source_location,
        )
    }
}

/// A logger builder which build loggers that output log records to the terminal.
///
/// The resulting logger will work asynchronously (the default channel size is 1024).
#[derive(Debug)]
pub struct TerminalLoggerBuilder {
    format: Format,
    source_location: SourceLocation,
    timezone: TimeZone,
    destination: Destination,
    channel_size: usize,
    evaluation_order: EvaluationOrder,
    filter_config: FilterConfig,
}

impl View for TerminalLoggerBuilder {
    type V = TerminalModel;

    closed spec fn view(&self) -> TerminalModel {
        TerminalModel {
            format: self.format,
            source_location: self.source_location,
            timezone: self.timezone,
            destination: self.destination,
            channel_size: self.channel_size,
            evaluation_order: self.evaluation_order,
            filter_config: self.filter_config@,
        }
    }
}

impl TerminalLoggerBuilder {
    /// Makes a new `TerminalLoggerBuilder` instance.
    pub fn new() -> (builder: Self)
        ensures
            builder@ == TerminalModel::initial(),
    {
        TerminalLoggerBuilder {
            format: Format::default(),
            source_location: SourceLocation::default(),
            timezone: TimeZone::default(),
            destination: Destination::default(),
            channel_size: default_channel_size(),
            evaluation_order: EvaluationOrder::default(),
            filter_config: FilterConfig::default(),
        }
    }

    /// Sets the format of log records.
    pub fn format(&mut self, format: Format) -> (builder: &mut Self)
        ensures
            builder@ == (TerminalModel { format, ..old(self)@ }),
            *final(self) == *final(builder),
    {
        self.format = format;
        self
    }

    /// Sets the source code location type this logger will use.
    pub fn source_location(&mut self, source_location: SourceLocation) -> (builder: &mut Self)
        ensures
            builder@ == (TerminalModel { source_location, ..old(self)@ }),
            *final(self) == *final(builder),
    {
        self.source_location = source_location;
        self
    }

    /// Sets the time zone which this logger will use.
    pub fn timezone(&mut self, timezone: TimeZone) -> (builder: &mut Self)
        ensures
            builder@ == (TerminalModel { timezone, ..old(self)@ }),
            *final(self) == *final(builder),
    {
        self.timezone = timezone;
        self
    }

    /// Sets the destination to which log records will be outputted.
    pub fn destination(&mut self, destination: Destination) -> (builder: &mut Self)
        ensures
            builder@ == (TerminalModel { destination, ..old(self)@ }),
            *final(self) == *final(builder),
    {
        self.destination = destination;
        self
    }

    /// Sets the size of the asynchronous channel of this logger; with 0 the
    /// logger writes to its sink on the caller's thread.
    pub fn channel_size(&mut self, channel_size: usize) -> (builder: &mut Self)
        ensures
            builder@ == (TerminalModel { channel_size, ..old(self)@ }),
            *final(self) == *final(builder),
    {
        self.channel_size = channel_size;
        self
    }

    /// Sets the order in which the two scopes of a record's fields are looked
    /// at by the filter.
    pub fn evaluation_order(&mut self, evaluation_order: EvaluationOrder) -> (builder: &mut Self)
        ensures
            builder@ == (TerminalModel { evaluation_order, ..old(self)@ }),
            *final(self) == *final(builder),
    {
        self.evaluation_order = evaluation_order;
        self
    }

    /// Sets the filtering config.
    pub fn filter_config(&mut self, config: FilterConfig) -> (builder: &mut Self)
        ensures
            builder@ == (TerminalModel { filter_config: config@, ..old(self)@ }),
            *final(self) == *final(builder),
    {
        self.filter_config = config;
        self
    }

    /// The destination to which log records will be outputted.
    pub fn stream(&self) -> (destination: Destination)
        ensures
            destination == self@.destination,
    {
        self.destination
    }

    /// Lays out the stages that wrap the sink of this logger, from the sink
    /// outwards.
    pub fn build_with_drain(&self) -> (stages: Vec<Stage>)
        ensures
            stages_view(stages@) == self@.stages(),
    {
        let filter_spec = self.filter_config.to_filter_spec();
        build_with_drain(
            self.channel_size,
            KVFilterConfig { filter_spec, evaluation_order: self.evaluation_order },
            self.source_location,
        )
    }

    /// Plans the logger of this builder, given whether a decorator that
    /// knows the terminal could be acquired for its destination.
    pub fn build(&self, term_acquired: bool) -> (plan: TerminalPlan)
        ensures
            plan.decorator == self@.destination.resolved(term_acquired),
            plan.format == self@.format,
            plan.timezone == self@.timezone,
            stages_view(plan.stages@) == self@.stages(),
    {
        let decorator = self.destination.to_decorator(term_acquired);
        let stages = self.build_with_drain();
        TerminalPlan { decorator, format: self.format, timezone: self.timezone, stages }
    }
}

impl Default for TerminalLoggerBuilder {
    fn default() -> (builder: Self)
        ensures
            builder@ == TerminalModel::initial(),
    {
        Self::new()
    }
}

/// What it takes to put a terminal logger together: the sink, which formats
/// records in `format` with timestamps of `timezone` and writes them through
/// `decorator`, and the stages that wrap it, from the sink outwards.
#[derive(Debug, Clone, PartialEq, Eq)]
pub struct TerminalPlan {
    pub decorator: Decorator,
    pub format: Format,
    pub timezone: TimeZone,
    pub stages: Vec<Stage>,
}

/// The configuration of `TerminalLoggerBuilder`.
#[derive(Debug, Clone, PartialEq, Eq)]
pub struct TerminalLoggerConfig {
    /// Log record format.
    pub format: Format,
    /// Source code location.
    pub source_location: SourceLocation,
    /// Time zone.
    pub timezone: TimeZone,
    /// Output destination.
    pub destination: Destination,
    /// Asynchronous channel size.
    pub channel_size: usize,
    /// The order in which the two scopes of a record's fields are looked at
    /// by the filter.
    pub evaluation_order: EvaluationOrder,
    /// The filter (includes the general severity threshold).
    pub filter_config: FilterConfig,
}

impl View for TerminalLoggerConfig {
    type V = TerminalModel;

    open spec fn view(&self) -> TerminalModel {
        TerminalModel {
            format: self.format,
            source_location: self.source_location,
            timezone: self.timezone,
            destination: self.destination,
            channel_size: self.channel_size,
            evaluation_order: self.evaluation_order,
            filter_config: self.filter_config@,
        }
    }
}

impl Default for TerminalLoggerConfig {
    fn default() -> (config: Self)
        ensures
            config@ == TerminalModel::initial(),
    {
        TerminalLoggerConfig {
            format: Format::default(),
            source_location: SourceLocation::default(),
            timezone: TimeZone::default(),
            destination: Destination::default(),
            channel_size: default_channel_size(),
            evaluation_order: EvaluationOrder::default(),
            filter_config: FilterConfig::default(),
        }
    }
}

impl Config for TerminalLoggerConfig {
    type Builder = TerminalLoggerBuilder;

    /// Makes the builder that holds what this configuration holds. This
    /// never fails.
    fn try_to_builder(&self) -> (r: Result<TerminalLoggerBuilder, Error>)
        ensures
            r matches Ok(builder) && builder@ == self@,
    {
        let mut builder = TerminalLoggerBuilder::new();
        builder.format(self.format);
        builder.source_location(self.source_location);
        builder.timezone(self.timezone);
        builder.destination(self.destination);
        builder.channel_size(self.channel_size);
        builder.evaluation_order(self.evaluation_order);
        builder.filter_config(self.filter_config.duplicate());
        Ok(builder)
    }
}

} // verus!
