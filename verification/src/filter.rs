//! Filter expressions: boolean predicates over the severity of a record and
//! its key-value fields.
use vstd::prelude::*;
use vstd::string::StringExecFns;
use crate::types::{Severity, str_eq};

verus! {

/// The key-value fields of one scope, as plain text: each entry is a key and
/// the value bound to it.
pub type Fields = Seq<(Seq<char>, Seq<char>)>;

/// What a list of owned key-value pairs holds, as plain text.
pub open spec fn fields_view(pairs: Seq<(String, String)>) -> Fields {
    Seq::new(pairs.len(), |i: int| (pairs[i].0@, pairs[i].1@))
}

/// Whether `fields` binds `key` at all.
pub open spec fn has_key(fields: Fields, key: Seq<char>) -> bool {
    exists|i: int| 0 <= i < fields.len() && (#[trigger] fields[i]).0 == key
}

/// Whether `fields` binds `key` to `value`.
pub open spec fn has_pair(fields: Fields, key: Seq<char>, value: Seq<char>) -> bool {
    exists|i: int| 0 <= i < fields.len() && #[trigger] fields[i] == (key, value)
}

/// Whether a record binds `key` to `value`, where its fields come in two
/// scopes and `first` is looked at before `second`: a key that `first` binds
/// is decided by `first` alone.
pub open spec fn scoped_match(first: Fields, second: Fields, key: Seq<char>, value: Seq<char>) -> bool {
    has_pair(first, key, value) || (!has_key(first, key) && has_pair(second, key, value))
}

/// The mathematical content of a filter expression.
pub enum FilterExpr {
    /// Holds of records at the given severity or above.
    LevelAtLeast(Severity),
    /// Holds of records that bind the key to the value.
    MatchKV(Seq<char>, Seq<char>),
    /// Holds where both operands hold.
    And(Box<FilterExpr>, Box<FilterExpr>),
    /// Holds where at least one operand holds.
    Or(Box<FilterExpr>, Box<FilterExpr>),
    /// Holds where the operand does not.
    Not(Box<FilterExpr>),
    /// Holds where every operand holds.
    AllOf(Seq<FilterExpr>),
    /// Holds where at least one operand holds.
    AnyOf(Seq<FilterExpr>),
}

impl FilterExpr {
    /// Whether the expression holds of a record of the given severity whose
    /// fields come in two scopes, `first` looked at before `second`.
    pub open spec fn accepts_scoped(self, severity: Severity, first: Fields, second: Fields) -> bool
        decreases self,
    {
        match self {
            FilterExpr::LevelAtLeast(threshold) => severity.rank() >= threshold.rank(),
            FilterExpr::MatchKV(key, value) => scoped_match(first, second, key, value),
            FilterExpr::And(a, b) => a.accepts_scoped(severity, first, second) && b.accepts_scoped(
                severity,
                first,
                second,
            ),
            FilterExpr::Or(a, b) => a.accepts_scoped(severity, first, second) || b.accepts_scoped(
                severity,
                first,
                second,
            ),
            FilterExpr::Not(a) => !a.accepts_scoped(severity, first, second),
            FilterExpr::AllOf(operands) => forall|i: int|
                0 <= i < operands.len() ==> (#[trigger] operands[i]).accepts_scoped(
                    severity,
                    first,
                    second,
                ),
            FilterExpr::AnyOf(operands) => exists|i: int|
                0 <= i < operands.len() && (#[trigger] operands[i]).accepts_scoped(
                    severity,
                    first,
                    second,
                ),
        }
    }

    /// Whether the expression holds of a record of the given severity and
    /// fields.
    pub open spec fn accepts(self, severity: Severity, fields: Fields) -> bool {
        self.accepts_scoped(severity, fields, Seq::empty())
    }

    /// An `AllOf` holds exactly where each of its operands holds.
    pub proof fn lemma_all_of(operands: Seq<FilterExpr>, severity: Severity, first: Fields, second: Fields)
        ensures
            FilterExpr::AllOf(operands).accepts_scoped(severity, first, second) <==> (forall|i: int|
                0 <= i < operands.len() ==> (#[trigger] operands[i]).accepts_scoped(
                    severity,
                    first,
                    second,
                )),
    {
        let whole = FilterExpr::AllOf(operands);
        assert(whole->AllOf_0 == operands);
        if whole.accepts_scoped(severity, first, second) {
            assert forall|i: int| 0 <= i < operands.len() implies (#[trigger] operands[i]).accepts_scoped(
                severity,
                first,
                second,
            ) by {
                assert(whole->AllOf_0[i].accepts_scoped(severity, first, second));
            }
        }
    }

    /// An `AnyOf` holds exactly where one of its operands holds.
    pub proof fn lemma_any_of(operands: Seq<FilterExpr>, severity: Severity, first: Fields, second: Fields)
        ensures
            FilterExpr::AnyOf(operands).accepts_scoped(severity, first, second) <==> (exists|i: int|
                0 <= i < operands.len() && (#[trigger] operands[i]).accepts_scoped(
                    severity,
                    first,
                    second,
                )),
    {
        let whole = FilterExpr::AnyOf(operands);
        assert(whole->AnyOf_0 == operands);
        if exists|i: int|
            0 <= i < operands.len() && (#[trigger] operands[i]).accepts_scoped(severity, first, second) {
            let i = choose|i: int|
                0 <= i < operands.len() && (#[trigger] operands[i]).accepts_scoped(
                    severity,
                    first,
                    second,
                );
            assert(whole->AnyOf_0[i].accepts_scoped(severity, first, second));
        }
    }
}

/// A boolean expression over the severity of a record and its key-value
/// fields, which decides whether the record is emitted.
#[derive(Debug, PartialEq, Eq)]
pub enum FilterSpec {
    /// Holds of records at the given severity or above.
    LevelAtLeast(Severity),
    /// Holds of records that bind `key` to `value`.
    MatchKV { key: String, value: String },
    /// Holds where both operands hold.
    And(Box<FilterSpec>, Box<FilterSpec>),
    /// Holds where at least one operand holds.
    Or(Box<FilterSpec>, Box<FilterSpec>),
    /// Holds where the operand does not.
    Not(Box<FilterSpec>),
    /// Holds where every operand holds; with no operand it always holds.
    AllOf(Vec<FilterSpec>),
    /// Holds where at least one operand holds; with no operand it never holds.
    AnyOf(Vec<FilterSpec>),
}

/// The contents of a list of filter expressions.
pub open spec fn exprs_view(specs: Seq<FilterSpec>) -> Seq<FilterExpr> {
    Seq::new(specs.len(), |i: int| specs[i]@)
}

impl FilterSpec {
    /// The mathematical content of this expression.
    pub open spec fn expr(self) -> FilterExpr
        decreases self,
    {
        match self {
            FilterSpec::LevelAtLeast(threshold) => FilterExpr::LevelAtLeast(threshold),
            FilterSpec::MatchKV { key, value } => FilterExpr::MatchKV(key@, value@),
            FilterSpec::And(a, b) => FilterExpr::And(Box::new(a.expr()), Box::new(b.expr())),
            FilterSpec::Or(a, b) => FilterExpr::Or(Box::new(a.expr()), Box::new(b.expr())),
            FilterSpec::Not(a) => FilterExpr::Not(Box::new(a.expr())),
            FilterSpec::AllOf(operands) => FilterExpr::AllOf(
                Seq::new(
                    operands@.len(),
                    |i: int|
                        if 0 <= i < operands@.len() {
                            operands@[i].expr()
                        } else {
                            FilterExpr::AllOf(Seq::empty())
                        },
                ),
            ),
            FilterSpec::AnyOf(operands) => FilterExpr::AnyOf(
                Seq::new(
                    operands@.len(),
                    |i: int|
                        if 0 <= i < operands@.len() {
                            operands@[i].expr()
                        } else {
                            FilterExpr::AllOf(Seq::empty())
                        },
                ),
            ),
        }
    }

    /// The content of an n-ary expression is the list of the contents of its
    /// operands.
    pub proof fn lemma_expr_of_lists(operands: Vec<FilterSpec>)
        ensures
            FilterSpec::AllOf(operands)@ == FilterExpr::AllOf(exprs_view(operands@)),
            FilterSpec::AnyOf(operands)@ == FilterExpr::AnyOf(exprs_view(operands@)),
    {
        let all = FilterSpec::AllOf(operands).expr();
        let any = FilterSpec::AnyOf(operands).expr();
        assert(all->AllOf_0 =~= exprs_view(operands@));
        assert(any->AnyOf_0 =~= exprs_view(operands@));
    }
}

impl Clone for FilterSpec {
    fn clone(&self) -> (copy: Self)
        ensures
            copy@ == self@,
    {
        self.duplicate()
    }
}

impl View for FilterSpec {
    type V = FilterExpr;

    open spec fn view(&self) -> FilterExpr {
        self.expr()
    }
}

/// Whether `fields` binds `key` at all.
pub fn fields_have_key(fields: &Vec<(String, String)>, key: &str) -> (found: bool)
    ensures
        found == has_key(fields_view(fields@), key@),
{
    let ghost model = fields_view(fields@);
    let mut i: usize = 0;
    while i < fields.len()
        invariant
            i <= fields.len(),
            model == fields_view(fields@),
            forall|j: int| 0 <= j < i ==> (#[trigger] model[j]).0 != key@,
        decreases fields.len() - i,
    {
        if str_eq(fields[i].0.as_str(), key) {
            assert(model[i as int].0 == key@);
            return true;
        }
        i += 1;
    }
    false
}

/// Whether `fields` binds `key` to `value`.
pub fn fields_have_pair(fields: &Vec<(String, String)>, key: &str, value: &str) -> (found: bool)
    ensures
        found == has_pair(fields_view(fields@), key@, value@),
{
    let ghost model = fields_view(fields@);
    let mut i: usize = 0;
    while i < fields.len()
        invariant
            i <= fields.len(),
            model == fields_view(fields@),
            forall|j: int| 0 <= j < i ==> #[trigger] model[j] != (key@, value@),
        decreases fields.len() - i,
    {
        if str_eq(fields[i].0.as_str(), key) && str_eq(fields[i].1.as_str(), value) {
            assert(model[i as int] == (key@, value@));
            return true;
        }
        i += 1;
    }
    false
}

impl FilterSpec {
    /// The expression that holds of records binding `key` to `value`.
    pub fn match_kv(key: &str, value: &str) -> (spec: FilterSpec)
        ensures
            spec@ == FilterExpr::MatchKV(key@, value@),
    {
        FilterSpec::MatchKV { key: String::from_str(key), value: String::from_str(value) }
    }

    /// The conjunction of this expression and `other`.
    pub fn and(self, other: FilterSpec) -> (spec: FilterSpec)
        ensures
            spec@ == FilterExpr::And(Box::new(self@), Box::new(other@)),
    {
        FilterSpec::And(Box::new(self), Box::new(other))
    }

    /// The disjunction of this expression and `other`.
    pub fn or(self, other: FilterSpec) -> (spec: FilterSpec)
        ensures
            spec@ == FilterExpr::Or(Box::new(self@), Box::new(other@)),
    {
        FilterSpec::Or(Box::new(self), Box::new(other))
    }

    /// The negation of this expression.
    pub fn not(self) -> (spec: FilterSpec)
        ensures
            spec@ == FilterExpr::Not(Box::new(self@)),
    {
        FilterSpec::Not(Box::new(self))
    }

    /// The expression that holds where every one of `operands` holds.
    pub fn all_of(operands: Vec<FilterSpec>) -> (spec: FilterSpec)
        ensures
            spec@ == FilterExpr::AllOf(exprs_view(operands@)),
    {
        proof {
            Self::lemma_expr_of_lists(operands);
        }
        FilterSpec::AllOf(operands)
    }

    /// The expression that holds where at least one of `operands` holds.
    pub fn any_of(operands: Vec<FilterSpec>) -> (spec: FilterSpec)
        ensures
            spec@ == FilterExpr::AnyOf(exprs_view(operands@)),
    {
        proof {
            Self::lemma_expr_of_lists(operands);
        }
        FilterSpec::AnyOf(operands)
    }

    /// A copy of this expression with the same content.
    pub fn duplicate(&self) -> (copy: FilterSpec)
        ensures
            copy@ == self@,
        decreases self,
    {
        match self {
            FilterSpec::LevelAtLeast(threshold) => FilterSpec::LevelAtLeast(*threshold),
            FilterSpec::MatchKV { key, value } => FilterSpec::MatchKV {
                key: key.clone(),
                value: value.clone(),
            },
            FilterSpec::And(a, b) => FilterSpec::And(
                Box::new(a.duplicate()),
                Box::new(b.duplicate()),
            ),
            FilterSpec::Or(a, b) => FilterSpec::Or(
                Box::new(a.duplicate()),
                Box::new(b.duplicate()),
            ),
            FilterSpec::Not(a) => FilterSpec::Not(Box::new(a.duplicate())),
            FilterSpec::AllOf(operands) => {
                let copies = Self::duplicate_all(operands);
                proof {
                    Self::lemma_expr_of_lists(*operands);
                    Self::lemma_expr_of_lists(copies);
                }
                FilterSpec::AllOf(copies)
            },
            FilterSpec::AnyOf(operands) => {
                let copies = Self::duplicate_all(operands);
                proof {
                    Self::lemma_expr_of_lists(*operands);
                    Self::lemma_expr_of_lists(copies);
                }
                FilterSpec::AnyOf(copies)
            },
        }
    }

    /// Copies of the expressions of `operands`, in the same order.
    fn duplicate_all(operands: &Vec<FilterSpec>) -> (copies: Vec<FilterSpec>)
        ensures
            exprs_view(copies@) == exprs_view(operands@),
        decreases operands,
    {
        let mut copies: Vec<FilterSpec> = Vec::new();
        let mut i: usize = 0;
        while i < operands.len()
            invariant
                i <= operands.len(),
                copies@.len() == i,
                forall|j: int| 0 <= j < i ==> (#[trigger] copies@[j])@ == operands@[j]@,
            decreases operands.len() - i,
        {
            let copy = operands[i].duplicate();
            copies.push(copy);
            i += 1;
        }
        assert(exprs_view(copies@) =~= exprs_view(operands@));
        copies
    }

    /// Decides whether a record of the given severity passes, where its
    /// fields come in two scopes and `first` is looked at before `second`.
    pub fn evaluate_scoped(
        &self,
        severity: Severity,
        first: &Vec<(String, String)>,
        second: &Vec<(String, String)>,
    ) -> (pass: bool)
        ensures
            pass == self@.accepts_scoped(severity, fields_view(first@), fields_view(second@)),
        decreases self,
    {
        match self {
            FilterSpec::LevelAtLeast(threshold) => severity.is_at_least(*threshold),
            FilterSpec::MatchKV { key, value } => {
                if fields_have_pair(first, key.as_str(), value.as_str()) {
                    true
                } else if fields_have_key(first, key.as_str()) {
                    false
                } else {
                    fields_have_pair(second, key.as_str(), value.as_str())
                }
            },
            FilterSpec::And(a, b) => a.evaluate_scoped(severity, first, second)
                && b.evaluate_scoped(severity, first, second),
            FilterSpec::Or(a, b) => a.evaluate_scoped(severity, first, second)
                || b.evaluate_scoped(severity, first, second),
            FilterSpec::Not(a) => !a.evaluate_scoped(severity, first, second),
            FilterSpec::AllOf(operands) => {
                let ghost exprs = exprs_view(operands@);
                proof {
                    Self::lemma_expr_of_lists(*operands);
                    FilterExpr::lemma_all_of(exprs, severity, fields_view(first@), fields_view(second@));
                }
                let mut i: usize = 0;
                while i < operands.len()
                    invariant
                        i <= operands.len(),
                        *self == FilterSpec::AllOf(*operands),
                        exprs.len() == operands.len(),
                        self@.accepts_scoped(severity, fields_view(first@), fields_view(second@)) <==> (
                        forall|j: int|
                            0 <= j < exprs.len() ==> (#[trigger] exprs[j]).accepts_scoped(
                                severity,
                                fields_view(first@),
                                fields_view(second@),
                            )),
                        exprs == exprs_view(operands@),
                        forall|j: int|
                            0 <= j < i ==> (#[trigger] exprs[j]).accepts_scoped(
                                severity,
                                fields_view(first@),
                                fields_view(second@),
                            ),
                    decreases operands.len() - i,
                {
                    let holds = operands[i].evaluate_scoped(severity, first, second);
                    assert(exprs[i as int] == operands@[i as int]@);
                    if !holds {
                        return false;
                    }
                    i += 1;
                }
                true
            },
            FilterSpec::AnyOf(operands) => {
                let ghost exprs = exprs_view(operands@);
                proof {
                    Self::lemma_expr_of_lists(*operands);
                    FilterExpr::lemma_any_of(exprs, severity, fields_view(first@), fields_view(second@));
                }
                let mut i: usize = 0;
                while i < operands.len()
                    invariant
                        i <= operands.len(),
                        *self == FilterSpec::AnyOf(*operands),
                        exprs.len() == operands.len(),
                        self@.accepts_scoped(severity, fields_view(first@), fields_view(second@)) <==> (
                        exists|j: int|
                            0 <= j < exprs.len() && (#[trigger] exprs[j]).accepts_scoped(
                                severity,
                                fields_view(first@),
                                fields_view(second@),
                            )),
                        exprs == exprs_view(operands@),
                        forall|j: int|
                            0 <= j < i ==> !(#[trigger] exprs[j]).accepts_scoped(
                                severity,
                                fields_view(first@),
                                fields_view(second@),
                            ),
                    decreases operands.len() - i,
                {
                    let holds = operands[i].evaluate_scoped(severity, first, second);
                    assert(exprs[i as int] == operands@[i as int]@);
                    if holds {
                        return true;
                    }
                    i += 1;
                }
                false
            },
        }
    }

    /// Decides whether a record of the given severity and fields passes.
    pub fn evaluate(&self, severity: Severity, key_values: &Vec<(String, String)>) -> (pass: bool)
        ensures
            pass == self@.accepts(severity, fields_view(key_values@)),
    {
        let none: Vec<(String, String)> = Vec::new();
        assert(fields_view(none@) =~= Seq::empty());
        self.evaluate_scoped(severity, key_values, &none)
    }
}

/// Which scope of fields is looked at first when a record is filtered: the
/// fields bound to the logger, or the fields given with the message. A key
/// that the first scope binds is decided by the first scope alone.
#[derive(Debug, Clone, Copy, PartialEq, Eq, Structural)]
pub enum EvaluationOrder {
    /// The fields of the logger first, then those of the message.
    LoggerAndMessage,
    /// The fields of the message first, then those of the logger.
    MessageAndLogger,
}

impl EvaluationOrder {
    /// The scope that is looked at first.
    pub open spec fn first_scope(self, logger: Fields, message: Fields) -> Fields {
        match self {
            EvaluationOrder::LoggerAndMessage => logger,
            EvaluationOrder::MessageAndLogger => message,
        }
    }

    /// The scope that is looked at second.
    pub open spec fn second_scope(self, logger: Fields, message: Fields) -> Fields {
        match self {
            EvaluationOrder::LoggerAndMessage => message,
            EvaluationOrder::MessageAndLogger => logger,
        }
    }
}

impl Default for EvaluationOrder {
    fn default() -> (order: Self)
        ensures
            order == EvaluationOrder::LoggerAndMessage,
    {
        EvaluationOrder::LoggerAndMessage
    }
}

/// A filter expression together with the order in which the two scopes of a
/// record's fields are looked at.
#[derive(Debug, Clone, PartialEq, Eq)]
pub struct KVFilterConfig {
    pub filter_spec: FilterSpec,
    pub evaluation_order: EvaluationOrder,
}

impl KVFilterConfig {
    /// Whether a record passes: the expression, evaluated with the scopes in
    /// the configured order.
    pub open spec fn accepts(self, severity: Severity, logger: Fields, message: Fields) -> bool {
        self.filter_spec@.accepts_scoped(
            severity,
            self.evaluation_order.first_scope(logger, message),
            self.evaluation_order.second_scope(logger, message),
        )
    }

    /// Decides whether a record passes, given its severity, the fields bound
    /// to the logger and the fields given with the message.
    pub fn evaluate(
        &self,
        severity: Severity,
        logger_fields: &Vec<(String, String)>,
        message_fields: &Vec<(String, String)>,
    ) -> (pass: bool)
        ensures
            pass == self.accepts(severity, fields_view(logger_fields@), fields_view(message_fields@)),
    {
        match self.evaluation_order {
            EvaluationOrder::LoggerAndMessage => self.filter_spec.evaluate_scoped(
                severity,
                logger_fields,
                message_fields,
            ),
            EvaluationOrder::MessageAndLogger => self.filter_spec.evaluate_scoped(
                severity,
                message_fields,
                logger_fields,
            ),
        }
    }
}

/// Whether no key is bound in both scopes.
pub open spec fn share_no_key(a: Fields, b: Fields) -> bool {
    forall|key: Seq<char>| !(#[trigger] has_key(a, key) && has_key(b, key))
}

/// A scope that binds a key to a value binds that key.
pub proof fn lemma_pair_gives_key(fields: Fields, key: Seq<char>, value: Seq<char>)
    requires
        has_pair(fields, key, value),
    ensures
        has_key(fields, key),
{
    let i = choose|i: int| 0 <= i < fields.len() && #[trigger] fields[i] == (key, value);
    assert(fields[i].0 == key);
}

impl FilterExpr {
    /// The order of the scopes is seen only through a key that both bind:
    /// where they share no key, either order gives the same answer.
    pub proof fn lemma_order_matters_only_on_shared_keys(self, severity: Severity, a: Fields, b: Fields)
        requires
            share_no_key(a, b),
        ensures
            self.accepts_scoped(severity, a, b) == self.accepts_scoped(severity, b, a),
        decreases self,
    {
        match self {
            FilterExpr::LevelAtLeast(_) => {},
            FilterExpr::MatchKV(key, value) => {
                assert(!(has_key(a, key) && has_key(b, key)));
                if has_pair(a, key, value) {
                    lemma_pair_gives_key(a, key, value);
                }
                if has_pair(b, key, value) {
                    lemma_pair_gives_key(b, key, value);
                }
            },
            FilterExpr::And(x, y) => {
                x.lemma_order_matters_only_on_shared_keys(severity, a, b);
                y.lemma_order_matters_only_on_shared_keys(severity, a, b);
            },
            FilterExpr::Or(x, y) => {
                x.lemma_order_matters_only_on_shared_keys(severity, a, b);
                y.lemma_order_matters_only_on_shared_keys(severity, a, b);
            },
            FilterExpr::Not(x) => {
                x.lemma_order_matters_only_on_shared_keys(severity, a, b);
            },
            FilterExpr::AllOf(operands) => {
                Self::lemma_all_of(operands, severity, a, b);
                Self::lemma_all_of(operands, severity, b, a);
                assert forall|i: int| 0 <= i < operands.len() implies (#[trigger] operands[i]).accepts_scoped(
                    severity,
                    a,
                    b,
                ) == operands[i].accepts_scoped(severity, b, a) by {
                    operands[i].lemma_order_matters_only_on_shared_keys(severity, a, b);
                }
            },
            FilterExpr::AnyOf(operands) => {
                Self::lemma_any_of(operands, severity, a, b);
                Self::lemma_any_of(operands, severity, b, a);
                assert forall|i: int| 0 <= i < operands.len() implies (#[trigger] operands[i]).accepts_scoped(
                    severity,
                    a,
                    b,
                ) == operands[i].accepts_scoped(severity, b, a) by {
                    operands[i].lemma_order_matters_only_on_shared_keys(severity, a, b);
                }
            },
        }
    }

    /// Where the first scope binds a key, it alone decides an atom on that
    /// key, whatever the second scope binds.
    pub proof fn lemma_first_scope_decides(
        key: Seq<char>,
        value: Seq<char>,
        severity: Severity,
        first: Fields,
        second: Fields,
    )
        requires
            has_key(first, key),
        ensures
            FilterExpr::MatchKV(key, value).accepts_scoped(severity, first, second) == has_pair(
                first,
                key,
                value,
            ),
    {
    }

    /// With a single scope of fields, a key-value atom holds exactly when the
    /// fields bind the key to the value.
    pub proof fn lemma_match_kv(key: Seq<char>, value: Seq<char>, severity: Severity, fields: Fields)
        ensures
            FilterExpr::MatchKV(key, value).accepts(severity, fields) == has_pair(fields, key, value),
    {
        let none: Fields = Seq::empty();
        assert(!has_pair(none, key, value));
    }

    /// A severity atom holds exactly of the records at its severity or above.
    pub proof fn lemma_level_at_least(threshold: Severity, severity: Severity, fields: Fields)
        ensures
            FilterExpr::LevelAtLeast(threshold).accepts(severity, fields) == (severity.rank()
                >= threshold.rank()),
    {
    }

    /// An `AllOf` without operands holds of every record, and an `AnyOf`
    /// without operands of none.
    pub proof fn lemma_empty_lists(severity: Severity, fields: Fields)
        ensures
            FilterExpr::AllOf(Seq::empty()).accepts(severity, fields),
            !FilterExpr::AnyOf(Seq::empty()).accepts(severity, fields),
    {
        Self::lemma_all_of(Seq::empty(), severity, fields, Seq::empty());
        Self::lemma_any_of(Seq::empty(), severity, fields, Seq::empty());
    }
}

} // verus!
