use std::str::FromStr;

use sloggers::types::{FilterConfig, Format, PassIfMatch, Severity, SourceLocation, TimeZone};
use sloggers::filter::FilterSpec;
use sloggers::ErrorKind;

fn pairs(items: &[(&str, &str)]) -> Vec<(String, String)> {
    items.iter().map(|(k, v)| (k.to_string(), v.to_string())).collect()
}

#[test]
fn severity_default_is_info() {
    assert_eq!(Severity::default(), Severity::Info);
}

#[test]
fn severity_is_totally_ordered() {
    let all = [
        Severity::Trace,
        Severity::Debug,
        Severity::Info,
        Severity::Warning,
        Severity::Error,
        Severity::Critical,
    ];
    for (i, a) in all.iter().enumerate() {
        assert_eq!(a.rank_value() as usize, i);
        for (j, b) in all.iter().enumerate() {
            assert_eq!(a < b, i < j);
            assert_eq!(a.is_at_least(*b), i >= j);
        }
    }
}

#[test]
fn severity_parses_every_name() {
    assert_eq!(Severity::parse("trace").unwrap(), Severity::Trace);
    assert_eq!(Severity::parse("debug").unwrap(), Severity::Debug);
    assert_eq!(Severity::parse("info").unwrap(), Severity::Info);
    assert_eq!(Severity::parse("warning").unwrap(), Severity::Warning);
    assert_eq!(Severity::parse("error").unwrap(), Severity::Error);
    assert_eq!(Severity::parse("critical").unwrap(), Severity::Critical);
    assert_eq!(Severity::from_str("warning").unwrap(), Severity::Warning);
    assert_eq!("critical".parse::<Severity>().unwrap(), Severity::Critical);
}

#[test]
fn severity_names_round_trip() {
    for s in [
        Severity::Trace,
        Severity::Debug,
        Severity::Info,
        Severity::Warning,
        Severity::Error,
        Severity::Critical,
    ] {
        assert_eq!(Severity::parse(s.as_str()).unwrap(), s);
    }
    assert_eq!(Severity::Warning.as_str(), "warning");
}

#[test]
fn severity_bogus_is_invalid_and_cited() {
    let e = Severity::parse("bogus").unwrap_err();
    assert_eq!(e.kind(), ErrorKind::Invalid);
    assert!(e.message().contains("bogus"));
    assert_eq!(e.to_string(), "Undefined severity: \"bogus\"");
    assert!(Severity::from_str("Info").is_err());
    assert!(Severity::parse("").is_err());
}

#[test]
fn severity_as_level_matches_slog() {
    assert_eq!(Severity::Trace.as_level(), slog::Level::Trace);
    assert_eq!(Severity::Debug.as_level(), slog::Level::Debug);
    assert_eq!(Severity::Info.as_level(), slog::Level::Info);
    assert_eq!(Severity::Warning.as_level(), slog::Level::Warning);
    assert_eq!(Severity::Error.as_level(), slog::Level::Error);
    assert_eq!(Severity::Critical.as_level(), slog::Level::Critical);
}

#[test]
fn format_default_names_and_errors() {
    assert_eq!(Format::default(), Format::Full);
    assert_eq!(Format::parse("full").unwrap(), Format::Full);
    assert_eq!(Format::parse("compact").unwrap(), Format::Compact);
    assert_eq!(Format::Compact.as_str(), "compact");
    assert_eq!(Format::from_str(Format::Full.as_str()).unwrap(), Format::Full);
    let e = Format::parse("wide").unwrap_err();
    assert_eq!(e.kind(), ErrorKind::Invalid);
    assert_eq!(e.message(), "Undefined log format: \"wide\"");
}

#[test]
fn timezone_default_names_and_errors() {
    assert_eq!(TimeZone::default(), TimeZone::Local);
    assert_eq!(TimeZone::parse("utc").unwrap(), TimeZone::Utc);
    assert_eq!(TimeZone::parse("local").unwrap(), TimeZone::Local);
    assert_eq!(TimeZone::Utc.as_str(), "utc");
    assert_eq!(TimeZone::from_str(TimeZone::Local.as_str()).unwrap(), TimeZone::Local);
    let e = TimeZone::parse("UTC").unwrap_err();
    assert_eq!(e.kind(), ErrorKind::Invalid);
    assert_eq!(e.message(), "Undefined time zone: \"UTC\"");
}

#[test]
fn source_location_default_names_and_errors() {
    assert_eq!(SourceLocation::default(), SourceLocation::ModuleAndLine);
    assert_eq!(SourceLocation::parse("none").unwrap(), SourceLocation::NoLocation);
    assert_eq!(SourceLocation::parse("module_and_line").unwrap(), SourceLocation::ModuleAndLine);
    assert_eq!(SourceLocation::ModuleAndLine.as_str(), "module_and_line");
    assert_eq!(SourceLocation::NoLocation.as_str(), "none");
    let e = SourceLocation::from_str("file").unwrap_err();
    assert_eq!(e.kind(), ErrorKind::Invalid);
    assert_eq!(e.message(), "Undefined source code location: \"file\"");
}

#[test]
fn pass_if_match_new_owns_the_pairs_in_order() {
    let p = PassIfMatch::new(&[("key1", "value1"), ("key2", "value2")], Severity::Trace);
    assert_eq!(p.keys_and_values, pairs(&[("key1", "value1"), ("key2", "value2")]));
    assert_eq!(p.severity_at_least, Severity::Trace);
    let none: [(&str, &str); 0] = [];
    let empty = PassIfMatch::new(&none, Severity::Error);
    assert!(empty.keys_and_values.is_empty());
    assert_eq!(empty.duplicate(), empty);
    assert_eq!(p.duplicate(), p);
}

#[test]
fn pass_if_match_compiles_to_all_pairs_and_severity() {
    let p = PassIfMatch::new(&[("key1", "value1"), ("key2", "value2")], Severity::Debug);
    let expected = FilterSpec::And(
        Box::new(FilterSpec::AllOf(vec![
            FilterSpec::MatchKV { key: "key1".to_string(), value: "value1".to_string() },
            FilterSpec::MatchKV { key: "key2".to_string(), value: "value2".to_string() },
        ])),
        Box::new(FilterSpec::LevelAtLeast(Severity::Debug)),
    );
    assert_eq!(p.to_filter_spec(), expected);
}

#[test]
fn pass_if_match_accepts_matching_records_only() {
    let spec = PassIfMatch::new(&[("key1", "value1")], Severity::Trace).to_filter_spec();
    let with_pair = pairs(&[("other", "x"), ("key1", "value1")]);
    let without_pair = pairs(&[("key1", "value2"), ("other", "value1")]);
    for s in [
        Severity::Trace,
        Severity::Debug,
        Severity::Info,
        Severity::Warning,
        Severity::Error,
        Severity::Critical,
    ] {
        assert!(spec.evaluate(s, &with_pair));
        assert!(!spec.evaluate(s, &without_pair));
        assert!(!spec.evaluate(s, &Vec::new()));
    }
}

#[test]
fn pass_if_match_respects_its_severity() {
    let spec = PassIfMatch::new(&[("key1", "value1")], Severity::Warning).to_filter_spec();
    let kv = pairs(&[("key1", "value1")]);
    assert!(!spec.evaluate(Severity::Info, &kv));
    assert!(spec.evaluate(Severity::Warning, &kv));
    assert!(spec.evaluate(Severity::Critical, &kv));
}

#[test]
fn filter_config_default_passes_info_and_above() {
    let config = FilterConfig::default();
    assert_eq!(
        config,
        FilterConfig::PassOnAnyOf {
            always_pass_on_severity_at_least: Severity::Info,
            passes: Vec::new(),
        }
    );
    assert_eq!(config, FilterConfig::always_pass_on_severity_at_least(Severity::Info));
    let spec = config.to_filter_spec();
    let kv = pairs(&[("key1", "value1")]);
    assert!(!spec.evaluate(Severity::Debug, &kv));
    assert!(spec.evaluate(Severity::Info, &kv));
    assert!(spec.evaluate(Severity::Error, &Vec::new()));
}

#[test]
fn pass_on_any_of_compiles_to_threshold_or_any_entry() {
    let config = FilterConfig::PassOnAnyOf {
        always_pass_on_severity_at_least: Severity::Info,
        passes: vec![PassIfMatch::new(&[("key1", "value1")], Severity::Debug)],
    };
    let expected = FilterSpec::Or(
        Box::new(FilterSpec::LevelAtLeast(Severity::Info)),
        Box::new(FilterSpec::AnyOf(vec![FilterSpec::And(
            Box::new(FilterSpec::AllOf(vec![FilterSpec::MatchKV {
                key: "key1".to_string(),
                value: "value1".to_string(),
            }])),
            Box::new(FilterSpec::LevelAtLeast(Severity::Debug)),
        )])),
    );
    assert_eq!(config.to_filter_spec(), expected);
    assert_eq!(config.duplicate(), config);
}

#[test]
fn pass_on_any_of_lets_a_matching_debug_record_through() {
    let config = FilterConfig::PassOnAnyOf {
        always_pass_on_severity_at_least: Severity::Info,
        passes: vec![PassIfMatch::new(&[("key1", "value1")], Severity::Debug)],
    };
    let spec = config.to_filter_spec();
    assert!(spec.evaluate(Severity::Debug, &pairs(&[("key1", "value1")])));
    assert!(!spec.evaluate(Severity::Debug, &pairs(&[("key2", "value1")])));
    assert!(!spec.evaluate(Severity::Debug, &Vec::new()));
    assert!(!spec.evaluate(Severity::Trace, &pairs(&[("key1", "value1")])));
    assert!(spec.evaluate(Severity::Info, &Vec::new()));
}

#[test]
fn custom_filter_config_is_used_as_it_is() {
    let spec = FilterSpec::match_kv("system", "A").not().or(FilterSpec::LevelAtLeast(Severity::Error));
    let config = FilterConfig::Custom { filter_spec: spec.clone() };
    assert_eq!(config.to_filter_spec(), spec);
    assert_eq!(config.duplicate(), config);
}
