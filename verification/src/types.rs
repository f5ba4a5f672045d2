//! Commonly used types.
use vstd::prelude::*;
use vstd::string::StringExecFns;
use crate::error::{Error, ErrorKind, cites, undefined_message};
use crate::filter::{Fields, FilterExpr, FilterSpec, exprs_view, fields_view, has_pair};

verus! {

/// Whether two string slices hold the same text.
///
/// Trusted: this is `==` of `str` in the standard library, which compares
/// the two slices character by character.
#[verifier::external_body]
pub(crate) fn str_eq(a: &str, b: &str) -> (same: bool)
    ensures
        same == (a@ == b@),
{
    a == b
}

/// The logging level of `slog`. Nothing of its inside is known here.
#[verifier::external_type_specification]
#[verifier::external_body]
pub struct ExLevel(slog::Level);

/// The level that `slog::Level::from_usize` gives for a number.
pub uninterp spec fn level_from_usize(u: usize) -> Option<slog::Level>;

/// Trusted: `slog::Level::from_usize` is a function of its argument alone,
/// and it knows a level for the numbers 1 (critical) to 6 (trace) and for no
/// other number.
pub assume_specification[ slog::Level::from_usize ](u: usize) -> (level: Option<slog::Level>)
    ensures
        level == level_from_usize(u),
        level.is_some() <==> 1 <= u <= 6,
;

/// The severity of a log record.
///
/// Severities are totally ordered, from `Trace` (the least severe) up to
/// `Critical`.
#[allow(missing_docs)]
#[derive(Debug, Clone, Copy, PartialEq, Eq, PartialOrd, Ord, Hash, Structural)]
pub enum Severity {
    Trace,
    Debug,
    Info,
    Warning,
    Error,
    Critical,
}

impl Severity {
    /// The place of this severity in the order: 0 for `Trace`, 5 for `Critical`.
    pub open spec fn rank(self) -> nat {
        match self {
            Severity::Trace => 0,
            Severity::Debug => 1,
            Severity::Info => 2,
            Severity::Warning => 3,
            Severity::Error => 4,
            Severity::Critical => 5,
        }
    }

    /// The lowercase name under which this severity is written in configuration.
    pub open spec fn name(self) -> Seq<char> {
        match self {
            Severity::Trace => "trace"@,
            Severity::Debug => "debug"@,
            Severity::Info => "info"@,
            Severity::Warning => "warning"@,
            Severity::Error => "error"@,
            Severity::Critical => "critical"@,
        }
    }

    /// The severity that `s` names, if any.
    pub open spec fn named(s: Seq<char>) -> Option<Severity> {
        if s == "trace"@ {
            Some(Severity::Trace)
        } else if s == "debug"@ {
            Some(Severity::Debug)
        } else if s == "info"@ {
            Some(Severity::Info)
        } else if s == "warning"@ {
            Some(Severity::Warning)
        } else if s == "error"@ {
            Some(Severity::Error)
        } else if s == "critical"@ {
            Some(Severity::Critical)
        } else {
            None
        }
    }

    /// The description that opens the message for an unknown severity.
    pub open spec fn undefined_prefix() -> Seq<char> {
        "Undefined severity: "@
    }

    /// The number that `slog` gives to the level of this severity: 1 for
    /// `Critical`, up to 6 for `Trace`.
    pub open spec fn level_number(self) -> usize {
        match self {
            Severity::Critical => 1,
            Severity::Error => 2,
            Severity::Warning => 3,
            Severity::Info => 4,
            Severity::Debug => 5,
            Severity::Trace => 6,
        }
    }

    /// Converts `Severity` to `Level`: the level whose number is
    /// `self.level_number()`.
    pub fn as_level(&self) -> (level: slog::Level)
        ensures
            level_from_usize(self.level_number()) == Some(level),
    {
        let number: usize = match *self {
            Severity::Critical => 1,
            Severity::Error => 2,
            Severity::Warning => 3,
            Severity::Info => 4,
            Severity::Debug => 5,
            Severity::Trace => 6,
        };
        slog::Level::from_usize(number).unwrap()
    }

    /// The place of this severity in the order, as a machine integer.
    pub fn rank_value(&self) -> (r: u8)
        ensures
            r as nat == self.rank(),
    {
        match *self {
            Severity::Trace => 0,
            Severity::Debug => 1,
            Severity::Info => 2,
            Severity::Warning => 3,
            Severity::Error => 4,
            Severity::Critical => 5,
        }
    }

    /// Whether this severity is `threshold` or a more severe one.
    pub fn is_at_least(&self, threshold: Severity) -> (r: bool)
        ensures
            r == (self.rank() >= threshold.rank()),
    {
        self.rank_value() >= threshold.rank_value()
    }

    /// The lowercase name under which this severity is written in configuration.
    pub fn as_str(&self) -> (s: &'static str)
        ensures
            s@ == self.name(),
    {
        match *self {
            Severity::Trace => "trace",
            Severity::Debug => "debug",
            Severity::Info => "info",
            Severity::Warning => "warning",
            Severity::Error => "error",
            Severity::Critical => "critical",
        }
    }

    /// Reads a severity from its lowercase name.
    ///
    /// Any other text is refused with an `Invalid` error whose message cites
    /// the text as it was given.
    pub fn parse(s: &str) -> (r: Result<Severity, Error>)
        ensures
            r.is_ok() <==> Self::named(s@).is_some(),
            r matches Ok(v) ==> Self::named(s@) == Some(v),
            r matches Err(e) ==> e.kind == ErrorKind::Invalid && e.message@ == undefined_message(
                Self::undefined_prefix(),
                s@,
            ) && cites(e.message@, s@),
    {
        if str_eq(s, "trace") {
            Ok(Severity::Trace)
        } else if str_eq(s, "debug") {
            Ok(Severity::Debug)
        } else if str_eq(s, "info") {
            Ok(Severity::Info)
        } else if str_eq(s, "warning") {
            Ok(Severity::Warning)
        } else if str_eq(s, "error") {
            Ok(Severity::Error)
        } else if str_eq(s, "critical") {
            Ok(Severity::Critical)
        } else {
            Err(Error::undefined("Undefined severity: ", s))
        }
    }

    /// Two severities of the same rank are the same severity, so the ranks
    /// order the severities totally.
    pub proof fn lemma_rank_decides(self, other: Severity)
        ensures
            self.rank() == other.rank() <==> self == other,
            self.rank() <= 5,
    {
    }

    /// Reading back the name of a severity gives that severity.
    pub proof fn lemma_name_round_trip(self)
        ensures
            Self::named(self.name()) == Some(self),
    {
        reveal_strlit("trace");
        reveal_strlit("debug");
        reveal_strlit("info");
        reveal_strlit("warning");
        reveal_strlit("error");
        reveal_strlit("critical");
        assert("trace"@[0] == 't' && "debug"@[0] == 'd' && "info"@[0] == 'i');
        assert("warning"@[0] == 'w' && "error"@[0] == 'e' && "critical"@[0] == 'c');
    }
}

impl Default for Severity {
    fn default() -> (r: Self)
        ensures
            r == Severity::Info,
    {
        Severity::Info
    }
}

impl core::str::FromStr for Severity {
    type Err = Error;

    fn from_str(s: &str) -> (r: Result<Self, Error>)
        ensures
            r.is_ok() <==> Severity::named(s@).is_some(),
            r matches Ok(v) ==> Severity::named(s@) == Some(v),
            r matches Err(e) ==> e.kind == ErrorKind::Invalid && e.message@ == undefined_message(
                Severity::undefined_prefix(),
                s@,
            ) && cites(e.message@, s@),
    {
        Severity::parse(s)
    }
}

/// The format of log records.
#[derive(Debug, Clone, Copy, PartialEq, Eq, Structural)]
pub enum Format {
    /// Full format.
    Full,
    /// Compact format.
    Compact,
}

impl Format {
    /// The name under which this value is written in configuration.
    pub open spec fn name(self) -> Seq<char> {
        match self {
            Format::Full => "full"@,
            Format::Compact => "compact"@,
        }
    }

    /// The value that `s` names, if any.
    pub open spec fn named(s: Seq<char>) -> Option<Format> {
        if s == "full"@ {
            Some(Format::Full)
        } else if s == "compact"@ {
            Some(Format::Compact)
        } else {
            None
        }
    }

    /// The description that opens the message for an unknown name.
    pub open spec fn undefined_prefix() -> Seq<char> {
        "Undefined log format: "@
    }

    /// The name under which this value is written in configuration.
    pub fn as_str(&self) -> (s: &'static str)
        ensures
            s@ == self.name(),
    {
        match *self {
            Format::Full => "full",
            Format::Compact => "compact",
        }
    }

    /// Reads a value from its name.
    ///
    /// Any other text is refused with an `Invalid` error whose message cites
    /// the text as it was given.
    pub fn parse(s: &str) -> (r: Result<Format, Error>)
        ensures
            r.is_ok() <==> Self::named(s@).is_some(),
            r matches Ok(v) ==> Self::named(s@) == Some(v),
            r matches Err(e) ==> e.kind == ErrorKind::Invalid && e.message@ == undefined_message(
                Self::undefined_prefix(),
                s@,
            ) && cites(e.message@, s@),
    {
        if str_eq(s, "full") {
            Ok(Format::Full)
        } else if str_eq(s, "compact") {
            Ok(Format::Compact)
        } else {
            Err(Error::undefined("Undefined log format: ", s))
        }
    }

    /// Reading back the name of a value gives that value.
    pub proof fn lemma_name_round_trip(self)
        ensures
            Self::named(self.name()) == Some(self),
    {
        reveal_strlit("full");
        reveal_strlit("compact");
        assert("full"@[0] == 'f' && "compact"@[0] == 'c');
    }
}

impl Default for Format {
    fn default() -> (r: Self)
        ensures
            r == Format::Full,
    {
        Format::Full
    }
}

impl core::str::FromStr for Format {
    type Err = Error;

    fn from_str(s: &str) -> (r: Result<Self, Error>)
        ensures
            r.is_ok() <==> Format::named(s@).is_some(),
            r matches Ok(v) ==> Format::named(s@) == Some(v),
            r matches Err(e) ==> e.kind == ErrorKind::Invalid && e.message@ == undefined_message(
                Format::undefined_prefix(),
                s@,
            ) && cites(e.message@, s@),
    {
        Format::parse(s)
    }
}

/// The time zone in which timestamps are written.
#[derive(Debug, Clone, Copy, PartialEq, Eq, Structural)]
pub enum TimeZone {
    /// Coordinated universal time.
    Utc,
    /// The local time of the machine.
    Local,
}

impl TimeZone {
    /// The name under which this value is written in configuration.
    pub open spec fn name(self) -> Seq<char> {
        match self {
            TimeZone::Utc => "utc"@,
            TimeZone::Local => "local"@,
        }
    }

    /// The value that `s` names, if any.
    pub open spec fn named(s: Seq<char>) -> Option<TimeZone> {
        if s == "utc"@ {
            Some(TimeZone::Utc)
        } else if s == "local"@ {
            Some(TimeZone::Local)
        } else {
            None
        }
    }

    /// The description that opens the message for an unknown name.
    pub open spec fn undefined_prefix() -> Seq<char> {
        "Undefined time zone: "@
    }

    /// The name under which this value is written in configuration.
    pub fn as_str(&self) -> (s: &'static str)
        ensures
            s@ == self.name(),
    {
        match *self {
            TimeZone::Utc => "utc",
            TimeZone::Local => "local",
        }
    }

    /// Reads a value from its name.
    ///
    /// Any other text is refused with an `Invalid` error whose message cites
    /// the text as it was given.
    pub fn parse(s: &str) -> (r: Result<TimeZone, Error>)
        ensures
            r.is_ok() <==> Self::named(s@).is_some(),
            r matches Ok(v) ==> Self::named(s@) == Some(v),
            r matches Err(e) ==> e.kind == ErrorKind::Invalid && e.message@ == undefined_message(
                Self::undefined_prefix(),
                s@,
            ) && cites(e.message@, s@),
    {
        if str_eq(s, "utc") {
            Ok(TimeZone::Utc)
        } else if str_eq(s, "local") {
            Ok(TimeZone::Local)
        } else {
            Err(Error::undefined("Undefined time zone: ", s))
        }
    }

    /// Reading back the name of a value gives that value.
    pub proof fn lemma_name_round_trip(self)
        ensures
            Self::named(self.name()) == Some(self),
    {
        reveal_strlit("utc");
        reveal_strlit("local");
        assert("utc"@[0] == 'u' && "local"@[0] == 'l');
    }
}

impl Default for TimeZone {
    fn default() -> (r: Self)
        ensures
            r == TimeZone::Local,
    {
        TimeZone::Local
    }
}

impl core::str::FromStr for TimeZone {
    type Err = Error;

    fn from_str(s: &str) -> (r: Result<Self, Error>)
        ensures
            r.is_ok() <==> TimeZone::named(s@).is_some(),
            r matches Ok(v) ==> TimeZone::named(s@) == Some(v),
            r matches Err(e) ==> e.kind == ErrorKind::Invalid && e.message@ == undefined_message(
                TimeZone::undefined_prefix(),
                s@,
            ) && cites(e.message@, s@),
    {
        TimeZone::parse(s)
    }
}

/// What a record says of the place in the source that emitted it.
#[derive(Debug, Clone, Copy, PartialEq, Eq, Structural)]
pub enum SourceLocation {
    /// Nothing.
    NoLocation,
    /// The module and the line.
    ModuleAndLine,
}

impl SourceLocation {
    /// The name under which this value is written in configuration.
    pub open spec fn name(self) -> Seq<char> {
        match self {
            SourceLocation::NoLocation => "none"@,
            SourceLocation::ModuleAndLine => "module_and_line"@,
        }
    }

    /// The value that `s` names, if any.
    pub open spec fn named(s: Seq<char>) -> Option<SourceLocation> {
        if s == "none"@ {
            Some(SourceLocation::NoLocation)
        } else if s == "module_and_line"@ {
            Some(SourceLocation::ModuleAndLine)
        } else {
            None
        }
    }

    /// The description that opens the message for an unknown name.
    pub open spec fn undefined_prefix() -> Seq<char> {
        "Undefined source code location: "@
    }

    /// The name under which this value is written in configuration.
    pub fn as_str(&self) -> (s: &'static str)
        ensures
            s@ == self.name(),
    {
        match *self {
            SourceLocation::NoLocation => "none",
            SourceLocation::ModuleAndLine => "module_and_line",
        }
    }

    /// Reads a value from its name.
    ///
    /// Any other text is refused with an `Invalid` error whose message cites
    /// the text as it was given.
    pub fn parse(s: &str) -> (r: Result<SourceLocation, Error>)
        ensures
            r.is_ok() <==> Self::named(s@).is_some(),
            r matches Ok(v) ==> Self::named(s@) == Some(v),
            r matches Err(e) ==> e.kind == ErrorKind::Invalid && e.message@ == undefined_message(
                Self::undefined_prefix(),
                s@,
            ) && cites(e.message@, s@),
    {
        if str_eq(s, "none") {
            Ok(SourceLocation::NoLocation)
        } else if str_eq(s, "module_and_line") {
            Ok(SourceLocation::ModuleAndLine)
        } else {
            Err(Error::undefined("Undefined source code location: ", s))
        }
    }

    /// Reading back the name of a value gives that value.
    pub proof fn lemma_name_round_trip(self)
        ensures
            Self::named(self.name()) == Some(self),
    {
        reveal_strlit("none");
        reveal_strlit("module_and_line");
        assert("none"@[0] == 'n' && "module_and_line"@[0] == 'm');
    }
}

impl Default for SourceLocation {
    fn default() -> (r: Self)
        ensures
            r == SourceLocation::ModuleAndLine,
    {
        SourceLocation::ModuleAndLine
    }
}

impl core::str::FromStr for SourceLocation {
    type Err = Error;

    fn from_str(s: &str) -> (r: Result<Self, Error>)
        ensures
            r.is_ok() <==> SourceLocation::named(s@).is_some(),
            r matches Ok(v) ==> SourceLocation::named(s@) == Some(v),
            r matches Err(e) ==> e.kind == ErrorKind::Invalid && e.message@ == undefined_message(
                SourceLocation::undefined_prefix(),
                s@,
            ) && cites(e.message@, s@),
    {
        SourceLocation::parse(s)
    }
}

/// What a `PassIfMatch` holds, as plain values.
pub struct PassIfMatchModel {
    pub keys_and_values: Fields,
    pub severity_at_least: Severity,
}

impl PassIfMatchModel {
    /// The expressions that ask for each pair of this entry, in order.
    pub open spec fn matches(self) -> Seq<FilterExpr> {
        Seq::new(
            self.keys_and_values.len(),
            |i: int| FilterExpr::MatchKV(self.keys_and_values[i].0, self.keys_and_values[i].1),
        )
    }

    /// The expression that this entry stands for: every pair matches, and the
    /// severity is at least the one asked for.
    pub open spec fn compiled(self) -> FilterExpr {
        FilterExpr::And(
            Box::new(FilterExpr::AllOf(self.matches())),
            Box::new(FilterExpr::LevelAtLeast(self.severity_at_least)),
        )
    }

    /// A record passes the compiled entry exactly when its severity reaches
    /// the entry's and its fields hold every pair of the entry.
    pub proof fn lemma_compiled_accepts(self, severity: Severity, fields: Fields)
        ensures
            self.compiled().accepts(severity, fields) <==> (severity.rank()
                >= self.severity_at_least.rank() && forall|i: int|
                0 <= i < self.keys_and_values.len() ==> has_pair(
                    fields,
                    (#[trigger] self.keys_and_values[i]).0,
                    self.keys_and_values[i].1,
                )),
    {
        reveal_with_fuel(FilterExpr::accepts_scoped, 2);
        let none: Fields = Seq::empty();
        let matches = self.matches();
        FilterExpr::lemma_all_of(matches, severity, fields, none);
        assert forall|i: int| 0 <= i < matches.len() implies ((#[trigger] matches[i]).accepts_scoped(
            severity,
            fields,
            none,
        ) <==> has_pair(fields, self.keys_and_values[i].0, self.keys_and_values[i].1)) by {
            assert(!has_pair(none, self.keys_and_values[i].0, self.keys_and_values[i].1));
        }
        if FilterExpr::AllOf(matches).accepts_scoped(severity, fields, none) {
            assert forall|i: int| 0 <= i < self.keys_and_values.len() implies has_pair(
                fields,
                (#[trigger] self.keys_and_values[i]).0,
                self.keys_and_values[i].1,
            ) by {
                assert(matches[i].accepts_scoped(severity, fields, none));
            }
        }
        if forall|i: int|
            0 <= i < self.keys_and_values.len() ==> has_pair(
                fields,
                (#[trigger] self.keys_and_values[i]).0,
                self.keys_and_values[i].1,
            ) {
            assert forall|i: int| 0 <= i < matches.len() implies (#[trigger] matches[i]).accepts_scoped(
                severity,
                fields,
                none,
            ) by {
                assert(has_pair(fields, self.keys_and_values[i].0, self.keys_and_values[i].1));
            }
        }
    }
}

/// Pass a message if all the keys and values of `keys_and_values` have
/// corresponding keys and values in the message and the severity of the
/// message is at least `severity_at_least`.
#[derive(Clone, Debug, PartialEq, Eq)]
pub struct PassIfMatch {
    /// Key-value pairs that must all be found among the fields of a message.
    pub keys_and_values: Vec<(String, String)>,
    /// Severity must be at least this in order for the message to pass.
    pub severity_at_least: Severity,
}

impl View for PassIfMatch {
    type V = PassIfMatchModel;

    open spec fn view(&self) -> PassIfMatchModel {
        PassIfMatchModel {
            keys_and_values: fields_view(self.keys_and_values@),
            severity_at_least: self.severity_at_least,
        }
    }
}

/// What a list of borrowed key-value pairs holds, as plain text.
pub open spec fn borrowed_fields_view(pairs: Seq<(&str, &str)>) -> Fields {
    Seq::new(pairs.len(), |i: int| (pairs[i].0@, pairs[i].1@))
}

impl PassIfMatch {
    /// Creates a new `PassIfMatch` that asks for the given pairs, in the
    /// given order, and for the given severity.
    pub fn new(keys_and_values: &[(&str, &str)], severity: Severity) -> (entry: PassIfMatch)
        ensures
            entry@.keys_and_values == borrowed_fields_view(keys_and_values@),
            entry@.severity_at_least == severity,
    {
        let mut owned: Vec<(String, String)> = Vec::new();
        let mut i: usize = 0;
        while i < keys_and_values.len()
            invariant
                i <= keys_and_values.len(),
                owned@.len() == i,
                forall|j: int|
                    0 <= j < i ==> (#[trigger] owned@[j]).0@ == keys_and_values@[j].0@
                        && owned@[j].1@ == keys_and_values@[j].1@,
            decreases keys_and_values.len() - i,
        {
            let key = String::from_str(keys_and_values[i].0);
            let value = String::from_str(keys_and_values[i].1);
            owned.push((key, value));
            i += 1;
        }
        assert(fields_view(owned@) =~= borrowed_fields_view(keys_and_values@));
        PassIfMatch { keys_and_values: owned, severity_at_least: severity }
    }

    /// A copy of this entry with the same content.
    pub fn duplicate(&self) -> (copy: PassIfMatch)
        ensures
            copy@ == self@,
    {
        let mut owned: Vec<(String, String)> = Vec::new();
        let mut i: usize = 0;
        while i < self.keys_and_values.len()
            invariant
                i <= self.keys_and_values.len(),
                owned@.len() == i,
                forall|j: int|
                    0 <= j < i ==> (#[trigger] owned@[j]).0@ == self.keys_and_values@[j].0@
                        && owned@[j].1@ == self.keys_and_values@[j].1@,
            decreases self.keys_and_values.len() - i,
        {
            let key = self.keys_and_values[i].0.clone();
            let value = self.keys_and_values[i].1.clone();
            owned.push((key, value));
            i += 1;
        }
        assert(fields_view(owned@) =~= fields_view(self.keys_and_values@));
        PassIfMatch { keys_and_values: owned, severity_at_least: self.severity_at_least }
    }

    /// Builds the `FilterSpec` that this entry stands for.
    pub fn to_filter_spec(&self) -> (spec: FilterSpec)
        ensures
            spec@ == self@.compiled(),
    {
        let mut match_filters: Vec<FilterSpec> = Vec::new();
        let mut i: usize = 0;
        while i < self.keys_and_values.len()
            invariant
                i <= self.keys_and_values.len(),
                match_filters@.len() == i,
                forall|j: int|
                    0 <= j < i ==> (#[trigger] match_filters@[j])@ == FilterExpr::MatchKV(
                        self.keys_and_values@[j].0@,
                        self.keys_and_values@[j].1@,
                    ),
            decreases self.keys_and_values.len() - i,
        {
            let filter = FilterSpec::match_kv(
                self.keys_and_values[i].0.as_str(),
                self.keys_and_values[i].1.as_str(),
            );
            match_filters.push(filter);
            i += 1;
        }
        assert(exprs_view(match_filters@) =~= self@.matches());
        FilterSpec::all_of(match_filters).and(FilterSpec::LevelAtLeast(self.severity_at_least))
    }
}

/// What a `FilterConfig` holds, as plain values.
pub enum FilterConfigModel {
    PassOnAnyOf { always_pass_on_severity_at_least: Severity, passes: Seq<PassIfMatchModel> },
    Custom { filter_spec: FilterExpr },
}

impl FilterConfigModel {
    /// The expressions that the entries of `passes` stand for, in order.
    pub open spec fn variants(passes: Seq<PassIfMatchModel>) -> Seq<FilterExpr> {
        Seq::new(passes.len(), |i: int| passes[i].compiled())
    }

    /// The expression that this configuration stands for.
    pub open spec fn compiled(self) -> FilterExpr {
        match self {
            FilterConfigModel::PassOnAnyOf { always_pass_on_severity_at_least, passes } => {
                FilterExpr::Or(
                    Box::new(FilterExpr::LevelAtLeast(always_pass_on_severity_at_least)),
                    Box::new(FilterExpr::AnyOf(Self::variants(passes))),
                )
            },
            FilterConfigModel::Custom { filter_spec } => filter_spec,
        }
    }

    /// The configuration that lets a record pass at `severity` or above, and
    /// no other.
    pub open spec fn threshold_only(severity: Severity) -> FilterConfigModel {
        FilterConfigModel::PassOnAnyOf {
            always_pass_on_severity_at_least: severity,
            passes: Seq::empty(),
        }
    }

    /// A record passes a compiled `PassOnAnyOf` exactly when its severity
    /// reaches the general threshold or it passes one of the entries.
    pub proof fn lemma_pass_on_any_of_accepts(
        threshold: Severity,
        passes: Seq<PassIfMatchModel>,
        severity: Severity,
        fields: Fields,
    )
        ensures
            (FilterConfigModel::PassOnAnyOf {
                always_pass_on_severity_at_least: threshold,
                passes,
            }).compiled().accepts(severity, fields) <==> (severity.rank() >= threshold.rank()
                || exists|i: int|
                0 <= i < passes.len() && (#[trigger] passes[i]).compiled().accepts(severity, fields)),
    {
        reveal_with_fuel(FilterExpr::accepts_scoped, 2);
        let none: Fields = Seq::empty();
        let variants = Self::variants(passes);
        FilterExpr::lemma_any_of(variants, severity, fields, none);
        if exists|i: int|
            0 <= i < variants.len() && (#[trigger] variants[i]).accepts_scoped(severity, fields, none) {
            let i = choose|i: int|
                0 <= i < variants.len() && (#[trigger] variants[i]).accepts_scoped(
                    severity,
                    fields,
                    none,
                );
            assert(passes[i].compiled().accepts(severity, fields));
        }
        if exists|i: int|
            0 <= i < passes.len() && (#[trigger] passes[i]).compiled().accepts(severity, fields) {
            let i = choose|i: int|
                0 <= i < passes.len() && (#[trigger] passes[i]).compiled().accepts(severity, fields);
            assert(variants[i].accepts_scoped(severity, fields, none));
        }
    }

    /// With no entries, a record passes exactly when its severity reaches
    /// the threshold.
    pub proof fn lemma_threshold_only_accepts(threshold: Severity, severity: Severity, fields: Fields)
        ensures
            Self::threshold_only(threshold).compiled().accepts(severity, fields) <==> severity.rank()
                >= threshold.rank(),
    {
        Self::lemma_pass_on_any_of_accepts(threshold, Seq::empty(), severity, fields);
    }
}

/// A structure for simplified building of common filter scenarios.
#[derive(Clone, Debug, PartialEq, Eq)]
pub enum FilterConfig {
    /// Pass all messages with severity at least
    /// `always_pass_on_severity_at_least`. Also pass any message that passes
    /// one of the entries of `passes`.
    PassOnAnyOf {
        /// A message will pass if its level is at least this.
        always_pass_on_severity_at_least: Severity,
        /// A message will pass if it passes any of these.
        passes: Vec<PassIfMatch>,
    },
    /// An arbitrary filter expression, used as it is.
    Custom {
        /// The expression.
        filter_spec: FilterSpec,
    },
}

/// What a list of entries holds, as plain values.
pub open spec fn passes_view(passes: Seq<PassIfMatch>) -> Seq<PassIfMatchModel> {
    Seq::new(passes.len(), |i: int| passes[i]@)
}

impl View for FilterConfig {
    type V = FilterConfigModel;

    open spec fn view(&self) -> FilterConfigModel {
        match self {
            FilterConfig::PassOnAnyOf { always_pass_on_severity_at_least, passes } => {
                FilterConfigModel::PassOnAnyOf {
                    always_pass_on_severity_at_least: *always_pass_on_severity_at_least,
                    passes: passes_view(passes@),
                }
            },
            FilterConfig::Custom { filter_spec } => FilterConfigModel::Custom {
                filter_spec: filter_spec@,
            },
        }
    }
}

impl FilterConfig {
    /// Constructs a `FilterConfig` that will make a message pass if its
    /// severity is at least the specified one, without any exceptions.
    pub fn always_pass_on_severity_at_least(severity: Severity) -> (config: FilterConfig)
        ensures
            config@ == FilterConfigModel::threshold_only(severity),
    {
        let config = FilterConfig::PassOnAnyOf {
            always_pass_on_severity_at_least: severity,
            passes: Vec::new(),
        };
        assert(config@->passes =~= Seq::empty());
        config
    }

    /// A copy of this configuration with the same content.
    pub fn duplicate(&self) -> (copy: FilterConfig)
        ensures
            copy@ == self@,
    {
        match self {
            FilterConfig::PassOnAnyOf { always_pass_on_severity_at_least, passes } => {
                let mut copies: Vec<PassIfMatch> = Vec::new();
                let mut i: usize = 0;
                while i < passes.len()
                    invariant
                        i <= passes.len(),
                        copies@.len() == i,
                        forall|j: int| 0 <= j < i ==> (#[trigger] copies@[j])@ == passes@[j]@,
                    decreases passes.len() - i,
                {
                    let copy = passes[i].duplicate();
                    copies.push(copy);
                    i += 1;
                }
                assert(passes_view(copies@) =~= passes_view(passes@));
                FilterConfig::PassOnAnyOf {
                    always_pass_on_severity_at_least: *always_pass_on_severity_at_least,
                    passes: copies,
                }
            },
            FilterConfig::Custom { filter_spec } => FilterConfig::Custom {
                filter_spec: filter_spec.duplicate(),
            },
        }
    }

    /// Converts this configuration into the `FilterSpec` that it stands for.
    pub fn to_filter_spec(&self) -> (spec: FilterSpec)
        ensures
            spec@ == self@.compiled(),
    {
        match self {
            FilterConfig::PassOnAnyOf { passes, always_pass_on_severity_at_least } => {
                let mut variant_filters: Vec<FilterSpec> = Vec::new();
                let mut i: usize = 0;
                while i < passes.len()
                    invariant
                        i <= passes.len(),
                        variant_filters@.len() == i,
                        forall|j: int|
                            0 <= j < i ==> (#[trigger] variant_filters@[j])@ == passes@[j]@.compiled(),
                    decreases passes.len() - i,
                {
                    let filter = passes[i].to_filter_spec();
                    variant_filters.push(filter);
                    i += 1;
                }
                assert(exprs_view(variant_filters@) =~= FilterConfigModel::variants(
                    passes_view(passes@),
                ));
                FilterSpec::LevelAtLeast(*always_pass_on_severity_at_least).or(
                    FilterSpec::any_of(variant_filters),
                )
            },
            FilterConfig::Custom { filter_spec } => filter_spec.duplicate(),
        }
    }
}

impl Default for FilterConfig {
    fn default() -> (config: Self)
        ensures
            config@ == FilterConfigModel::threshold_only(Severity::Info),
    {
        FilterConfig::always_pass_on_severity_at_least(Severity::Info)
    }
}

} // verus!
