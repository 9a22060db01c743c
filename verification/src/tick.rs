//! One tick of the pipeline, with its stage barrier: raw lines are
//! tokenized, dispatched and answered in a fixed order of phases, and the
//! tick always ends idle with nothing carried over but the registry.

use vstd::prelude::*;

use crate::dispatch::{
    dispatch_all, dispatch_all_model, invalid_command_response, invalid_marks_model,
    invalid_resps_model, mark_invalid_commands, CommandDispatch, DispatchModel,
};
use crate::events::{BufModel, CommandBufInput, CommandResponse, RespModel, SenderId};
use crate::registry::CommandMetaMap;
use crate::respond::{responses_for, spec_responses_for};
use crate::schema::SpecModel;
use crate::tokenize::{parse_command_bufs, tokenize_all};

verus! {

/// The phase a tick is in. Each tick passes through the phases in this
/// order and ends idle.
#[derive(Clone, Copy, PartialEq, Eq, Structural, Debug)]
pub enum TickPhase {
    Idle,
    Tokenizing,
    Dispatching,
    AwaitingProcess,
    Responding,
}

/// The engine outputs of one tick over raw lines: the typed command events
/// of the lines that parsed, and the engine's error responses (parse
/// failures in event order, then unknown-command errors in event order).
pub open spec fn tick_engine_outputs(entries: Seq<SpecModel>, bufs: Seq<BufModel>) -> (Seq<
    DispatchModel,
>, Seq<RespModel>) {
    let evs = tokenize_all(bufs);
    let dispatched = dispatch_all_model(entries, evs);
    (dispatched.0, dispatched.1 + invalid_resps_model(invalid_marks_model(entries, evs)))
}

/// One tick of the dispatch pipeline. The scheduler drives it through its
/// phases: lines are submitted while idle, tokenized, dispatched against
/// the registry, handled by the handlers of the typed command events, and
/// the responses are delivered per sender; completing the tick leaves it
/// idle and empty again.
#[derive(Debug)]
pub struct ConsoleTick {
    pub phase: TickPhase,
    pub raw: Vec<CommandBufInput>,
    pub tokenized: Vec<crate::events::CommandArgsInput>,
    pub dispatches: Vec<CommandDispatch>,
    pub responses: Vec<CommandResponse>,
}

impl ConsoleTick {
    /// A fresh tick: idle, with nothing buffered.
    pub fn new() -> (r: Self)
        ensures
            r.phase == TickPhase::Idle,
            r.raw.deep_view() == Seq::<BufModel>::empty(),
            r.responses.deep_view() == Seq::<RespModel>::empty(),
            r.dispatches.deep_view() == Seq::<DispatchModel>::empty(),
    {
        let r = ConsoleTick {
            phase: TickPhase::Idle,
            raw: Vec::new(),
            tokenized: Vec::new(),
            dispatches: Vec::new(),
            responses: Vec::new(),
        };
        proof {
            assert(r.raw.deep_view() =~= Seq::<BufModel>::empty());
            assert(r.responses.deep_view() =~= Seq::<RespModel>::empty());
            assert(r.dispatches.deep_view() =~= Seq::<DispatchModel>::empty());
        }
        r
    }

    /// Enqueues a raw line from a sender for the coming tick. The producer
    /// trims trailing newlines; an empty string is valid and is dropped by
    /// the tokenizer.
    pub fn submit_line(&mut self, sender: SenderId, text: String)
        requires
            old(self).phase == TickPhase::Idle,
        ensures
            final(self).phase == TickPhase::Idle,
            final(self).raw.deep_view() == old(self).raw.deep_view().push(
                BufModel { sender, text: text@ },
            ),
            final(self).responses == old(self).responses,
            final(self).dispatches == old(self).dispatches,
    {
        let ghost prev = self.raw.deep_view();
        self.raw.push(CommandBufInput { sender, buf: text });
        proof {
            assert(self.raw.deep_view() =~= prev.push(self.raw@.last()@));
        }
    }

    /// Tokenizes the submitted lines, dropping blank and erroneous ones.
    pub fn tokenize_inputs(&mut self)
        requires
            old(self).phase == TickPhase::Idle,
        ensures
            final(self).phase == TickPhase::Tokenizing,
            final(self).tokenized.deep_view() == tokenize_all(old(self).raw.deep_view()),
            final(self).raw.deep_view() == old(self).raw.deep_view(),
            final(self).responses == old(self).responses,
            final(self).dispatches == old(self).dispatches,
    {
        self.tokenized = parse_command_bufs(&self.raw);
        self.phase = TickPhase::Tokenizing;
    }

    /// Dispatches the tokenized events against the registry: every event
    /// with a registered name is parsed and becomes a typed command event
    /// or an error response; every event without one gets a "no such
    /// command" error response. The engine's responses stand in event
    /// order, parse failures before unknown-command errors.
    pub fn dispatch_inputs(&mut self, reg: &CommandMetaMap)
        requires
            old(self).phase == TickPhase::Tokenizing,
            old(self).tokenized.deep_view() == tokenize_all(old(self).raw.deep_view()),
            old(self).responses.deep_view() == Seq::<RespModel>::empty(),
            old(self).dispatches.deep_view() == Seq::<DispatchModel>::empty(),
            reg.inv(),
        ensures
            final(self).phase == TickPhase::Dispatching,
            final(self).dispatches.deep_view() == tick_engine_outputs(
                reg@,
                old(self).raw.deep_view(),
            ).0,
            final(self).responses.deep_view() == tick_engine_outputs(
                reg@,
                old(self).raw.deep_view(),
            ).1,
            final(self).tokenized.deep_view() == tokenize_all(old(self).raw.deep_view()),
            final(self).raw.deep_view() == old(self).raw.deep_view(),
            final(self).tokenized == old(self).tokenized,
    {
        let (dispatches, mut errs) = dispatch_all(reg, &self.tokenized);
        let marks = mark_invalid_commands(&self.tokenized, reg);
        let mut invalid = invalid_command_response(&marks);
        let ghost errs0 = errs.deep_view();
        let ghost invalid0 = invalid.deep_view();
        errs.append(&mut invalid);
        proof {
            assert(errs.deep_view() =~= errs0 + invalid0);
        }
        self.dispatches = dispatches;
        self.responses = errs;
        self.phase = TickPhase::Dispatching;
    }

    /// Hands the typed command events to the process stage, in event
    /// order. Handler code consumes them and emits its responses through
    /// `push_response`.
    pub fn take_dispatches(&mut self) -> (r: Vec<CommandDispatch>)
        requires
            old(self).phase == TickPhase::Dispatching,
        ensures
            final(self).phase == TickPhase::AwaitingProcess,
            r == old(self).dispatches,
            final(self).responses == old(self).responses,
            final(self).dispatches.deep_view() == Seq::<DispatchModel>::empty(),
    {
        let mut out: Vec<CommandDispatch> = Vec::new();
        core::mem::swap(&mut out, &mut self.dispatches);
        self.phase = TickPhase::AwaitingProcess;
        proof {
            assert(self.dispatches.deep_view() =~= Seq::<DispatchModel>::empty());
        }
        out
    }

    /// Appends one response emitted by handler code during the process
    /// stage. Emission order is kept: handler responses follow the
    /// engine's error responses.
    pub fn push_response(&mut self, resp: CommandResponse)
        requires
            old(self).phase == TickPhase::AwaitingProcess,
        ensures
            final(self).phase == TickPhase::AwaitingProcess,
            final(self).responses.deep_view() == old(self).responses.deep_view().push(resp@),
    {
        let ghost prev = self.responses.deep_view();
        self.responses.push(resp);
        proof {
            assert(self.responses.deep_view() =~= prev.push(self.responses@.last()@));
        }
    }

    /// Appends every response a handler context emitted, in emission
    /// order.
    pub fn push_responses(&mut self, resps: Vec<CommandResponse>)
        requires
            old(self).phase == TickPhase::AwaitingProcess,
        ensures
            final(self).phase == TickPhase::AwaitingProcess,
            final(self).responses.deep_view() == old(self).responses.deep_view()
                + resps.deep_view(),
    {
        let ghost prev = self.responses.deep_view();
        let ghost added = resps.deep_view();
        let mut resps = resps;
        self.responses.append(&mut resps);
        proof {
            assert(self.responses.deep_view() =~= prev + added);
        }
    }

    /// Closes the process stage: the tick's responses are sealed and ready
    /// for delivery.
    pub fn begin_respond(&mut self)
        requires
            old(self).phase == TickPhase::AwaitingProcess,
        ensures
            final(self).phase == TickPhase::Responding,
            final(self).responses == old(self).responses,
    {
        self.phase = TickPhase::Responding;
    }

    /// Delivers to one front end: the tick's responses addressed to
    /// `target`, in emission order.
    pub fn deliver(&self, target: SenderId) -> (r: Vec<CommandResponse>)
        requires
            self.phase == TickPhase::Responding,
        ensures
            r.deep_view() == spec_responses_for(self.responses.deep_view(), target),
    {
        responses_for(&self.responses, target)
    }

    /// Ends the tick: every buffer is discarded and the tick is idle
    /// again. No event outlives its tick.
    pub fn complete(&mut self)
        requires
            old(self).phase == TickPhase::Responding,
        ensures
            final(self).phase == TickPhase::Idle,
            final(self).raw.deep_view() == Seq::<BufModel>::empty(),
            final(self).responses.deep_view() == Seq::<RespModel>::empty(),
            final(self).dispatches.deep_view() == Seq::<DispatchModel>::empty(),
    {
        self.raw.clear();
        self.tokenized.clear();
        self.dispatches.clear();
        self.responses.clear();
        self.phase = TickPhase::Idle;
        proof {
            assert(self.raw.deep_view() =~= Seq::<BufModel>::empty());
            assert(self.responses.deep_view() =~= Seq::<RespModel>::empty());
            assert(self.dispatches.deep_view() =~= Seq::<DispatchModel>::empty());
        }
    }
}

/// Two ticks fed the same registry and the same raw lines produce the same
/// typed command events and the same engine responses: the pipeline keeps
/// no state across ticks and never memoizes an answer.
pub proof fn lemma_tick_replay(
    entries1: Seq<SpecModel>,
    bufs1: Seq<BufModel>,
    entries2: Seq<SpecModel>,
    bufs2: Seq<BufModel>,
)
    requires
        entries1 == entries2,
        bufs1 == bufs2,
    ensures
        tick_engine_outputs(entries1, bufs1) == tick_engine_outputs(entries2, bufs2),
{
}

} // verus!
