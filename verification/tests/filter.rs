use sloggers::filter::{fields_have_key, fields_have_pair, EvaluationOrder, FilterSpec, KVFilterConfig};
use sloggers::types::Severity;

fn owned(items: &[(&str, &str)]) -> Vec<(String, String)> {
    items.iter().map(|(k, v)| (k.to_string(), v.to_string())).collect()
}

#[test]
fn empty_all_of_is_true_and_empty_any_of_is_false() {
    let kv = owned(&[("a", "b")]);
    for s in [Severity::Trace, Severity::Info, Severity::Critical] {
        assert!(FilterSpec::AllOf(Vec::new()).evaluate(s, &kv));
        assert!(FilterSpec::AllOf(Vec::new()).evaluate(s, &Vec::new()));
        assert!(!FilterSpec::AnyOf(Vec::new()).evaluate(s, &kv));
        assert!(!FilterSpec::AnyOf(Vec::new()).evaluate(s, &Vec::new()));
        assert!(FilterSpec::all_of(Vec::new()).evaluate(s, &kv));
        assert!(!FilterSpec::any_of(Vec::new()).evaluate(s, &kv));
    }
}

#[test]
fn level_at_least_compares_with_the_threshold() {
    assert!(FilterSpec::LevelAtLeast(Severity::Info).evaluate(Severity::Warning, &Vec::new()));
    assert!(!FilterSpec::LevelAtLeast(Severity::Warning).evaluate(Severity::Info, &Vec::new()));
    assert!(FilterSpec::LevelAtLeast(Severity::Info).evaluate(Severity::Info, &Vec::new()));
}

#[test]
fn match_kv_asks_for_key_and_value() {
    let spec = FilterSpec::match_kv("key1", "value1");
    assert_eq!(
        spec,
        FilterSpec::MatchKV { key: "key1".to_string(), value: "value1".to_string() }
    );
    assert!(spec.evaluate(Severity::Trace, &owned(&[("key1", "value1")])));
    assert!(spec.evaluate(Severity::Trace, &owned(&[("key0", "x"), ("key1", "value1")])));
    assert!(!spec.evaluate(Severity::Trace, &owned(&[("key1", "value")])));
    assert!(!spec.evaluate(Severity::Trace, &owned(&[("value1", "key1")])));
    assert!(!spec.evaluate(Severity::Trace, &Vec::new()));
}

#[test]
fn connectives_follow_boolean_logic() {
    let kv = owned(&[("a", "1")]);
    let yes = || FilterSpec::match_kv("a", "1");
    let no = || FilterSpec::match_kv("a", "2");
    let s = Severity::Info;
    assert!(yes().and(yes()).evaluate(s, &kv));
    assert!(!yes().and(no()).evaluate(s, &kv));
    assert!(!no().and(yes()).evaluate(s, &kv));
    assert!(yes().or(no()).evaluate(s, &kv));
    assert!(no().or(yes()).evaluate(s, &kv));
    assert!(!no().or(no()).evaluate(s, &kv));
    assert!(no().not().evaluate(s, &kv));
    assert!(!yes().not().evaluate(s, &kv));
    assert!(FilterSpec::all_of(vec![yes(), yes(), yes()]).evaluate(s, &kv));
    assert!(!FilterSpec::all_of(vec![yes(), no(), yes()]).evaluate(s, &kv));
    assert!(FilterSpec::any_of(vec![no(), no(), yes()]).evaluate(s, &kv));
    assert!(!FilterSpec::any_of(vec![no(), no()]).evaluate(s, &kv));
}

#[test]
fn constructors_build_the_named_variants() {
    let a = FilterSpec::LevelAtLeast(Severity::Debug);
    let b = FilterSpec::match_kv("k", "v");
    assert_eq!(
        a.clone().and(b.clone()),
        FilterSpec::And(Box::new(a.clone()), Box::new(b.clone()))
    );
    assert_eq!(
        a.clone().or(b.clone()),
        FilterSpec::Or(Box::new(a.clone()), Box::new(b.clone()))
    );
    assert_eq!(a.clone().not(), FilterSpec::Not(Box::new(a.clone())));
    assert_eq!(
        FilterSpec::all_of(vec![a.clone(), b.clone()]),
        FilterSpec::AllOf(vec![a.clone(), b.clone()])
    );
    assert_eq!(
        FilterSpec::any_of(vec![a.clone(), b.clone()]),
        FilterSpec::AnyOf(vec![a.clone(), b.clone()])
    );
}

#[test]
fn duplicate_gives_an_equal_expression() {
    let spec = FilterSpec::all_of(vec![
        FilterSpec::match_kv("k", "v").not(),
        FilterSpec::any_of(vec![
            FilterSpec::LevelAtLeast(Severity::Error),
            FilterSpec::match_kv("a", "b").and(FilterSpec::match_kv("c", "d")),
        ]),
    ]);
    assert_eq!(spec.duplicate(), spec);
    assert_eq!(spec.clone(), spec);
}

#[test]
fn field_lookups() {
    let kv = owned(&[("a", "1"), ("b", "2"), ("a", "3")]);
    assert!(fields_have_key(&kv, "a"));
    assert!(fields_have_key(&kv, "b"));
    assert!(!fields_have_key(&kv, "c"));
    assert!(!fields_have_key(&kv, "1"));
    assert!(fields_have_pair(&kv, "a", "1"));
    assert!(fields_have_pair(&kv, "a", "3"));
    assert!(!fields_have_pair(&kv, "a", "2"));
    assert!(!fields_have_pair(&Vec::new(), "a", "1"));
}

#[test]
fn the_first_scope_decides_a_key_bound_in_both() {
    let logger = owned(&[("system", "A")]);
    let message = owned(&[("system", "B")]);
    let wants_a = FilterSpec::match_kv("system", "A");
    let wants_b = FilterSpec::match_kv("system", "B");
    let s = Severity::Info;

    assert!(wants_a.evaluate_scoped(s, &logger, &message));
    assert!(!wants_b.evaluate_scoped(s, &logger, &message));
    assert!(!wants_a.evaluate_scoped(s, &message, &logger));
    assert!(wants_b.evaluate_scoped(s, &message, &logger));

    let logger_first = KVFilterConfig {
        filter_spec: wants_a.clone(),
        evaluation_order: EvaluationOrder::LoggerAndMessage,
    };
    let message_first = KVFilterConfig {
        filter_spec: wants_a.clone(),
        evaluation_order: EvaluationOrder::MessageAndLogger,
    };
    assert!(logger_first.evaluate(s, &logger, &message));
    assert!(!message_first.evaluate(s, &logger, &message));
}

#[test]
fn the_order_does_not_matter_without_a_shared_key() {
    let logger = owned(&[("system", "A")]);
    let message = owned(&[("request", "7")]);
    let spec = FilterSpec::match_kv("system", "A").and(FilterSpec::match_kv("request", "7"));
    let s = Severity::Info;
    assert!(spec.evaluate_scoped(s, &logger, &message));
    assert!(spec.evaluate_scoped(s, &message, &logger));
    let other = FilterSpec::match_kv("request", "8");
    assert!(!other.evaluate_scoped(s, &logger, &message));
    assert!(!other.evaluate_scoped(s, &message, &logger));
}

#[test]
fn evaluation_order_default() {
    assert_eq!(EvaluationOrder::default(), EvaluationOrder::LoggerAndMessage);
}
