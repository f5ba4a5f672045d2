use sloggers::file::FileLoggerConfig;
use sloggers::filter::{EvaluationOrder, FilterSpec, KVFilterConfig};
use sloggers::misc::{build_with_drain, default_channel_size, module_and_line, needs_guard, Stage};
use sloggers::null::{NullLoggerBuilder, NullLoggerConfig};
use sloggers::terminal::{Decorator, Destination, TerminalLoggerBuilder, TerminalLoggerConfig};
use sloggers::types::{FilterConfig, Format, PassIfMatch, Severity, SourceLocation, TimeZone};
use sloggers::{Config, LoggerBuilder, LoggerConfig};

fn sample_filter_config() -> FilterConfig {
    FilterConfig::PassOnAnyOf {
        always_pass_on_severity_at_least: Severity::Info,
        passes: vec![
            PassIfMatch::new(&[("key1", "value1")], Severity::Trace),
            PassIfMatch::new(&[("key2", "value2")], Severity::Debug),
        ],
    }
}

fn filter_stage(config: &FilterConfig, order: EvaluationOrder) -> Stage {
    Stage::KeyValueFilter {
        config: KVFilterConfig { filter_spec: config.to_filter_spec(), evaluation_order: order },
    }
}

#[test]
fn destination_default_is_stdout() {
    assert_eq!(Destination::default(), Destination::Stdout);
}

#[test]
fn decorator_knows_the_terminal_where_it_was_acquired() {
    assert_eq!(Destination::Stdout.to_decorator(true), Decorator::Term(Destination::Stdout));
    assert_eq!(Destination::Stderr.to_decorator(true), Decorator::Term(Destination::Stderr));
}

#[test]
fn decorator_falls_back_to_plain_on_the_same_stream() {
    assert_eq!(Destination::Stdout.to_decorator(false), Decorator::PlainStdout);
    assert_eq!(Destination::Stderr.to_decorator(false), Decorator::PlainStderr);
    for d in [Destination::Stdout, Destination::Stderr] {
        for acquired in [false, true] {
            assert_eq!(d.to_decorator(acquired).destination(), d);
        }
    }
}

#[test]
fn channel_size_default_is_1024() {
    assert_eq!(default_channel_size(), 1024);
}

#[test]
fn stages_are_layered_from_the_sink_outwards() {
    let spec = FilterSpec::LevelAtLeast(Severity::Debug);
    let config = KVFilterConfig {
        filter_spec: spec.clone(),
        evaluation_order: EvaluationOrder::MessageAndLogger,
    };
    let stages = build_with_drain(16, config.clone(), SourceLocation::ModuleAndLine);
    assert_eq!(
        stages,
        vec![
            Stage::AsyncBuffer { channel_size: 16 },
            Stage::KeyValueFilter { config: config.clone() },
            Stage::ModuleAndLine,
        ]
    );
    assert!(needs_guard(&stages));
}

#[test]
fn a_channel_without_room_means_no_worker() {
    let config = KVFilterConfig {
        filter_spec: FilterSpec::LevelAtLeast(Severity::Info),
        evaluation_order: EvaluationOrder::LoggerAndMessage,
    };
    let stages = build_with_drain(0, config.clone(), SourceLocation::NoLocation);
    assert_eq!(stages, vec![Stage::KeyValueFilter { config: config.clone() }]);
    assert!(!needs_guard(&stages));
    let stages = build_with_drain(0, config.clone(), SourceLocation::ModuleAndLine);
    assert_eq!(stages, vec![Stage::KeyValueFilter { config }, Stage::ModuleAndLine]);
    assert!(!needs_guard(&stages));
}

#[test]
fn null_logger_has_no_stage_and_no_worker() {
    let builder: NullLoggerBuilder = NullLoggerConfig {}.try_to_builder().unwrap();
    let stages = builder.build();
    assert!(stages.is_empty());
    assert!(!needs_guard(&stages));
    let any = LoggerConfig::Null(NullLoggerConfig {}).try_to_builder().unwrap();
    assert!(matches!(any, LoggerBuilder::Null(_)));
    assert!(any.build_with_drain().is_empty());
}

#[test]
fn terminal_config_defaults() {
    let config = TerminalLoggerConfig::default();
    assert_eq!(config.format, Format::Full);
    assert_eq!(config.source_location, SourceLocation::ModuleAndLine);
    assert_eq!(config.timezone, TimeZone::Local);
    assert_eq!(config.destination, Destination::Stdout);
    assert_eq!(config.channel_size, 1024);
    assert_eq!(config.evaluation_order, EvaluationOrder::LoggerAndMessage);
    assert_eq!(
        config.filter_config,
        FilterConfig::PassOnAnyOf {
            always_pass_on_severity_at_least: Severity::Info,
            passes: Vec::new(),
        }
    );
}

#[test]
fn logger_config_default_is_the_default_terminal() {
    assert_eq!(LoggerConfig::default(), LoggerConfig::Terminal(TerminalLoggerConfig::default()));
}

#[test]
fn file_config_defaults() {
    let config = FileLoggerConfig::default();
    assert_eq!(config.format, Format::Full);
    assert_eq!(config.source_location, SourceLocation::ModuleAndLine);
    assert_eq!(config.timezone, TimeZone::Local);
    assert_eq!(config.timestamp_template, "%Y%m%d_%H%M");
    assert_eq!(config.path, "");
    assert_eq!(config.channel_size, 1024);
    assert!(!config.truncate);
    assert_eq!(config.rotate_size, 9223372036854775807);
    assert_eq!(config.rotate_keep, 8);
    assert!(!config.rotate_compress);
    assert_eq!(config.filter_config, FilterConfig::default());
}

#[test]
fn terminal_builder_starts_from_the_defaults() {
    let plan = TerminalLoggerBuilder::new().build(true);
    assert_eq!(plan.decorator, Decorator::Term(Destination::Stdout));
    assert_eq!(plan.format, Format::Full);
    assert_eq!(plan.timezone, TimeZone::Local);
    assert_eq!(
        plan.stages,
        vec![
            Stage::AsyncBuffer { channel_size: 1024 },
            filter_stage(&FilterConfig::default(), EvaluationOrder::LoggerAndMessage),
            Stage::ModuleAndLine,
        ]
    );
    assert_eq!(TerminalLoggerBuilder::default().build(true), plan);
}

#[test]
fn terminal_builder_setters_chain() {
    let mut builder = TerminalLoggerBuilder::new();
    builder
        .format(Format::Compact)
        .source_location(SourceLocation::NoLocation)
        .timezone(TimeZone::Utc)
        .destination(Destination::Stderr)
        .channel_size(0)
        .evaluation_order(EvaluationOrder::MessageAndLogger)
        .filter_config(sample_filter_config());
    let plan = builder.build(false);
    assert_eq!(plan.decorator, Decorator::PlainStderr);
    assert_eq!(plan.format, Format::Compact);
    assert_eq!(plan.timezone, TimeZone::Utc);
    assert_eq!(
        plan.stages,
        vec![filter_stage(&sample_filter_config(), EvaluationOrder::MessageAndLogger)]
    );
    assert_eq!(builder.build_with_drain(), plan.stages);
}

#[test]
fn terminal_config_becomes_a_builder_with_the_same_values() {
    let mut config = TerminalLoggerConfig::default();
    config.filter_config = sample_filter_config();
    config.destination = Destination::Stderr;
    config.channel_size = 7;
    config.format = Format::Compact;
    let builder = config.try_to_builder().unwrap();
    let plan = builder.build(false);
    assert_eq!(plan.decorator, Decorator::PlainStderr);
    assert_eq!(plan.format, Format::Compact);
    assert_eq!(plan.timezone, TimeZone::Local);
    assert_eq!(
        plan.stages,
        vec![
            Stage::AsyncBuffer { channel_size: 7 },
            filter_stage(&sample_filter_config(), EvaluationOrder::LoggerAndMessage),
            Stage::ModuleAndLine,
        ]
    );
    let any = LoggerConfig::Terminal(config).try_to_builder().unwrap();
    assert!(matches!(any, LoggerBuilder::Terminal(_)));
    assert_eq!(any.build_with_drain(), plan.stages);
}

#[test]
fn file_config_becomes_a_builder_with_the_same_values() {
    let mut config = FileLoggerConfig::default();
    config.filter_config = sample_filter_config();
    config.path = "/var/log/app.log".to_string();
    config.channel_size = 0;
    let builder = config.try_to_builder().unwrap();
    assert_eq!(builder.config(), &config);
    assert_eq!(
        builder.build_with_drain(),
        vec![
            filter_stage(&sample_filter_config(), EvaluationOrder::LoggerAndMessage),
            Stage::ModuleAndLine,
        ]
    );
    let any = LoggerConfig::File(config).try_to_builder().unwrap();
    assert!(matches!(any, LoggerBuilder::File(_)));
    assert!(!needs_guard(&any.build_with_drain()));
}

#[test]
fn module_and_line_joins_with_a_colon() {
    assert_eq!(module_and_line("sloggers::terminal", 42), "sloggers::terminal:42");
    assert_eq!(module_and_line("main", 0), "main:0");
    assert_eq!(module_and_line("main", 9), "main:9");
    assert_eq!(module_and_line("main", 10), "main:10");
    assert_eq!(module_and_line("a::b", 1005), "a::b:1005");
    assert_eq!(module_and_line("", 4294967295), ":4294967295");
}
