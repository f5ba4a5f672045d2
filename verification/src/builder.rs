//! The builder of a logger of any kind.
use vstd::prelude::*;
use crate::file::{FileLoggerBuilder, FileModel};
use crate::misc::{Stage, StageModel, has_worker, lemma_layering_order, stages_view};
use crate::null::NullLoggerBuilder;
use crate::terminal::{TerminalLoggerBuilder, TerminalModel};

verus! {

/// What the configuration of a logger holds, as plain values.
pub enum LoggerModel {
    File(FileModel),
    Null,
    Terminal(TerminalModel),
}

impl LoggerModel {
    /// The stages of the logger that this configuration describes, from the
    /// sink outwards. A null logger has none.
    pub open spec fn stages(self) -> Seq<StageModel> {
        match self {
            LoggerModel::File(m) => m.stages(),
            LoggerModel::Null => Seq::empty(),
            LoggerModel::Terminal(m) => m.stages(),
        }
    }

    /// The size of the asynchronous channel that was asked for; a null
    /// logger has no channel.
    pub open spec fn channel_size(self) -> usize {
        match self {
            LoggerModel::File(m) => m.channel_size,
            LoggerModel::Null => 0,
            LoggerModel::Terminal(m) => m.channel_size,
        }
    }

    /// A logger has a background worker exactly when it has a channel with
    /// room; a null logger never has one.
    pub proof fn lemma_worker_iff_channel(self)
        ensures
            has_worker(self.stages()) <==> self.channel_size() > 0,
    {
        match self {
            LoggerModel::File(m) => {
                lemma_layering_order(
                    m.channel_size,
                    m.filter_config.compiled(),
                    m.evaluation_order,
                    m.source_location,
                );
            },
            LoggerModel::Null => {},
            LoggerModel::Terminal(m) => {
                lemma_layering_order(
                    m.channel_size,
                    m.filter_config.compiled(),
                    m.evaluation_order,
                    m.source_location,
                );
            },
        }
    }
}

/// The builder of a file logger, of a null logger or of a terminal logger.
#[allow(missing_docs)]
#[derive(Debug)]
pub enum LoggerBuilder {
    File(FileLoggerBuilder),
    Null(NullLoggerBuilder),
    Terminal(TerminalLoggerBuilder),
}

impl View for LoggerBuilder {
    type V = LoggerModel;

    open spec fn view(&self) -> LoggerModel {
        match self {
            LoggerBuilder::File(b) => LoggerModel::File(b@),
            LoggerBuilder::Null(_) => LoggerModel::Null,
            LoggerBuilder::Terminal(b) => LoggerModel::Terminal(b@),
        }
    }
}

impl LoggerBuilder {
    /// Lays out the stages that wrap the sink of this logger, from the sink
    /// outwards.
    pub fn build_with_drain(&self) -> (stages: Vec<Stage>)
        ensures
            stages_view(stages@) == self@.stages(),
    {
        match self {
            LoggerBuilder::File(b) => b.build_with_drain(),
            LoggerBuilder::Null(b) => {
                let stages = b.build();
                assert(stages_view(stages@) =~= Seq::empty());
                stages
            },
            LoggerBuilder::Terminal(b) => b.build_with_drain(),
        }
    }
}

} // verus!
