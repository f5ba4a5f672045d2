//! The stages of a logger and the order in which they are layered.
use vstd::prelude::*;
use vstd::string::StringExecFns;
use crate::filter::{EvaluationOrder, FilterExpr, KVFilterConfig};
use crate::types::SourceLocation;

verus! {

/// One stage between the caller of a logger and its sink.
#[derive(Debug, Clone, PartialEq, Eq)]
pub enum Stage {
    /// Records are queued on a bounded channel of the given size and written
    /// to the sink by a background worker. A caller that finds the channel
    /// full waits until there is room: no record is dropped.
    AsyncBuffer { channel_size: usize },
    /// Records are filtered by severity and key-value fields.
    KeyValueFilter { config: KVFilterConfig },
    /// Every record gains a field `module` that names the module and the line
    /// of the place that emitted it.
    ModuleAndLine,
}

/// What a `Stage` holds, as plain values.
pub enum StageModel {
    AsyncBuffer { channel_size: usize },
    KeyValueFilter { filter: FilterExpr, evaluation_order: EvaluationOrder },
    ModuleAndLine,
}

impl View for Stage {
    type V = StageModel;

    open spec fn view(&self) -> StageModel {
        match self {
            Stage::AsyncBuffer { channel_size } => StageModel::AsyncBuffer {
                channel_size: *channel_size,
            },
            Stage::KeyValueFilter { config } => StageModel::KeyValueFilter {
                filter: config.filter_spec@,
                evaluation_order: config.evaluation_order,
            },
            Stage::ModuleAndLine => StageModel::ModuleAndLine,
        }
    }
}

/// What a list of stages holds, as plain values.
pub open spec fn stages_view(stages: Seq<Stage>) -> Seq<StageModel> {
    Seq::new(stages.len(), |i: int| stages[i]@)
}

/// The stages of a logger from the sink outwards.
///
/// Next to the sink stands the asynchronous buffer, if the channel has any
/// room: with a channel of size 0 the caller writes to the sink itself. The
/// filter stands outside the buffer, so that a record that is filtered out is
/// never queued. Outermost stands the annotation of the source location, if
/// it was asked for.
pub open spec fn layering(
    channel_size: usize,
    filter: FilterExpr,
    evaluation_order: EvaluationOrder,
    source_location: SourceLocation,
) -> Seq<StageModel> {
    let buffer = if channel_size > 0 {
        seq![StageModel::AsyncBuffer { channel_size }]
    } else {
        Seq::<StageModel>::empty()
    };
    let annotation = match source_location {
        SourceLocation::NoLocation => Seq::<StageModel>::empty(),
        SourceLocation::ModuleAndLine => seq![StageModel::ModuleAndLine],
    };
    buffer + seq![StageModel::KeyValueFilter { filter, evaluation_order }] + annotation
}

/// Whether a logger of these stages has a background worker, whose guard the
/// caller has to keep.
pub open spec fn has_worker(stages: Seq<StageModel>) -> bool {
    exists|i: int| 0 <= i < stages.len() && #[trigger] stages[i] is AsyncBuffer
}

/// The default size of the asynchronous channel.
pub fn default_channel_size() -> (size: usize)
    ensures
        size == 1024,
{
    1024
}

/// Lays out the stages that wrap a sink, from the sink outwards.
pub fn build_with_drain(
    channel_size: usize,
    kv_filter_config: KVFilterConfig,
    source_location: SourceLocation,
) -> (stages: Vec<Stage>)
    ensures
        stages_view(stages@) == layering(
            channel_size,
            kv_filter_config.filter_spec@,
            kv_filter_config.evaluation_order,
            source_location,
        ),
{
    let mut stages: Vec<Stage> = Vec::new();
    if channel_size > 0 {
        stages.push(Stage::AsyncBuffer { channel_size });
    }
    stages.push(Stage::KeyValueFilter { config: kv_filter_config });
    match source_location {
        SourceLocation::NoLocation => {},
        SourceLocation::ModuleAndLine => {
            stages.push(Stage::ModuleAndLine);
        },
    }
    assert(stages_view(stages@) =~= layering(
        channel_size,
        kv_filter_config.filter_spec@,
        kv_filter_config.evaluation_order,
        source_location,
    ));
    stages
}

/// Whether a logger of these stages has a background worker, whose guard the
/// caller has to keep for as long as the logger is used.
pub fn needs_guard(stages: &Vec<Stage>) -> (needed: bool)
    ensures
        needed == has_worker(stages_view(stages@)),
{
    let ghost model = stages_view(stages@);
    let mut i: usize = 0;
    while i < stages.len()
        invariant
            i <= stages.len(),
            model == stages_view(stages@),
            forall|j: int| 0 <= j < i ==> !(#[trigger] model[j] is AsyncBuffer),
        decreases stages.len() - i,
    {
        match &stages[i] {
            Stage::AsyncBuffer { .. } => {
                assert(model[i as int] is AsyncBuffer);
                return true;
            },
            _ => {
                assert(!(model[i as int] is AsyncBuffer));
            },
        }
        i += 1;
    }
    false
}

/// The filter of a layered logger stands outside its buffer, and the
/// annotation of the source location outside both; a worker exists exactly
/// when the channel has room.
pub proof fn lemma_layering_order(
    channel_size: usize,
    filter: FilterExpr,
    evaluation_order: EvaluationOrder,
    source_location: SourceLocation,
)
    ensures
        ({
            let stages = layering(channel_size, filter, evaluation_order, source_location);
            let at: int = if channel_size > 0 { 1 } else { 0 };
            &&& has_worker(stages) <==> channel_size > 0
            &&& channel_size > 0 ==> stages[0] == (StageModel::AsyncBuffer { channel_size })
            &&& stages[at] == (StageModel::KeyValueFilter { filter, evaluation_order })
            &&& source_location == SourceLocation::ModuleAndLine ==> stages.len() == at + 2
                && stages[at + 1] == StageModel::ModuleAndLine
            &&& source_location == SourceLocation::NoLocation ==> stages.len() == at + 1
        }),
{
    let stages = layering(channel_size, filter, evaluation_order, source_location);
    if channel_size > 0 {
        assert(stages[0] is AsyncBuffer);
    }
}

/// Puts one character at the end of a string.
///
/// Trusted: this is `String::push` of the standard library, which appends
/// the character and changes nothing else.
#[verifier::external_body]
fn push_char(text: &mut String, c: char)
    ensures
        final(text)@ == old(text)@.push(c),
{
    text.push(c)
}

/// The character that stands for a digit.
pub open spec fn digit(d: nat) -> char {
    if d == 0 {
        '0'
    } else if d == 1 {
        '1'
    } else if d == 2 {
        '2'
    } else if d == 3 {
        '3'
    } else if d == 4 {
        '4'
    } else if d == 5 {
        '5'
    } else if d == 6 {
        '6'
    } else if d == 7 {
        '7'
    } else if d == 8 {
        '8'
    } else {
        '9'
    }
}

/// A number in decimal notation, without leading zeros.
pub open spec fn decimal(n: nat) -> Seq<char>
    decreases n,
{
    if n < 10 {
        seq![digit(n)]
    } else {
        decimal(n / 10).push(digit(n % 10))
    }
}

/// What a record's field `module` holds: the module, a colon, and the line
/// in decimal notation.
pub open spec fn module_and_line_text(module: Seq<char>, line: u32) -> Seq<char> {
    module + seq![':'] + decimal(line as nat)
}

fn digit_char(d: u32) -> (c: char)
    requires
        d < 10,
    ensures
        c == digit(d as nat),
{
    if d == 0 {
        '0'
    } else if d == 1 {
        '1'
    } else if d == 2 {
        '2'
    } else if d == 3 {
        '3'
    } else if d == 4 {
        '4'
    } else if d == 5 {
        '5'
    } else if d == 6 {
        '6'
    } else if d == 7 {
        '7'
    } else if d == 8 {
        '8'
    } else {
        '9'
    }
}

fn push_decimal(text: &mut String, n: u32)
    ensures
        final(text)@ == old(text)@ + decimal(n as nat),
    decreases n,
{
    if n >= 10 {
        push_decimal(text, n / 10);
    }
    push_char(text, digit_char(n % 10));
    proof {
        if n >= 10 {
            assert(final(text)@ =~= old(text)@ + decimal((n / 10) as nat).push(digit((n % 10) as nat)));
        } else {
            assert(final(text)@ =~= old(text)@ + seq![digit(n as nat)]);
        }
    }
}

/// The text of the field `module` for a record that was emitted in the given
/// module, at the given line.
pub fn module_and_line(module: &str, line: u32) -> (text: String)
    ensures
        text@ == module_and_line_text(module@, line),
{
    let mut text = String::from_str(module);
    push_char(&mut text, ':');
    push_decimal(&mut text, line);
    assert(text@ =~= module_and_line_text(module@, line));
    text
}

} // verus!
