//! The dispatcher: matching tokenized events against the registry, parsing
//! their arguments, and synthesizing error responses for parse failures
//! and unknown command names.

use vstd::prelude::*;
use vstd::string::StringExecFns;

use crate::events::{
    ArgsModel, CommandArgsInput, CommandResponse, InvalidCommandInput, InvalidModel, Outcome,
    RespModel, SenderId,
};
use crate::parse::{clap_outcome, parse_args, zip_bindings, BindingModel, ParsedArgs};
use crate::registry::{lemma_reg_lookup_props, reg_lookup, CommandMetaMap};
use crate::schema::{CommandSpec, SpecModel};
use crate::text::{spec_split_lines, split_lines};

verus! {

/// A typed command event: a successfully parsed command addressed to the
/// handler registered for `name`, carrying the sender it came from.
#[derive(Debug)]
pub struct CommandDispatch {
    pub sender: SenderId,
    pub name: String,
    pub data: ParsedArgs,
}

/// Mathematical model of a typed command event.
pub ghost struct DispatchModel {
    pub sender: SenderId,
    pub name: Seq<char>,
    pub data: Seq<BindingModel>,
}

impl View for CommandDispatch {
    type V = DispatchModel;

    open spec fn view(&self) -> DispatchModel {
        DispatchModel { sender: self.sender, name: self.name@, data: self.data@ }
    }
}

impl DeepView for CommandDispatch {
    type V = DispatchModel;

    open spec fn deep_view(&self) -> DispatchModel {
        self.view()
    }
}

/// The response synthesized for a failed parse: the rendered error or
/// usage text, one display line per line, addressed to the event's sender.
pub open spec fn parse_failure_resp(sender: SenderId, text: Seq<char>) -> RespModel {
    RespModel { target: sender, lines: spec_split_lines(text), outcome: Outcome::Failure }
}

/// What dispatching one tokenized event against its matching specification
/// yields: a typed command event on parse success, an error response on
/// parse failure — never both.
pub open spec fn dispatch_event_model(s: SpecModel, ev: ArgsModel) -> Result<
    DispatchModel,
    RespModel,
> {
    match clap_outcome(s.name, s.fields, ev.args) {
        Result::Ok(vals) => Result::Ok(
            DispatchModel { sender: ev.sender, name: ev.name, data: zip_bindings(s.fields, vals) },
        ),
        Result::Err(text) => Result::Err(parse_failure_resp(ev.sender, text)),
    }
}

/// What the dispatcher emits for each value of the parser's outcome: on
/// success a typed command event carrying the bindings, on failure exactly
/// one error response to the event's sender holding the rendered text.
pub fn dispatch_parsed(ev: &CommandArgsInput, outcome: Result<ParsedArgs, String>) -> (r: Result<
    CommandDispatch,
    CommandResponse,
>)
    ensures
        match outcome {
            Result::Ok(parsed) => r matches Result::Ok(d) && d@ == (DispatchModel {
                sender: ev@.sender,
                name: ev@.name,
                data: parsed@,
            }),
            Result::Err(text) => r matches Result::Err(resp) && resp@ == parse_failure_resp(
                ev@.sender,
                text@,
            ),
        },
{
    match outcome {
        Result::Ok(parsed) => Result::Ok(
            CommandDispatch { sender: ev.sender, name: ev.name.clone(), data: parsed },
        ),
        Result::Err(text) => Result::Err(
            CommandResponse::err(ev.sender, split_lines(text.as_str())),
        ),
    }
}

/// Dispatches one tokenized event against the specification registered
/// under its name: builds a parser from the schema, parses the arguments,
/// and emits either the typed command event or the error response.
pub fn dispatch_command(spec: &CommandSpec, ev: &CommandArgsInput) -> (r: Result<
    CommandDispatch,
    CommandResponse,
>)
    requires
        spec@.wf(),
    ensures
        match r {
            Result::Ok(d) => dispatch_event_model(spec@, ev@) == Result::<
                DispatchModel,
                RespModel,
            >::Ok(d@),
            Result::Err(resp) => dispatch_event_model(spec@, ev@) == Result::<
                DispatchModel,
                RespModel,
            >::Err(resp@),
        },
{
    dispatch_parsed(ev, parse_args(spec, &ev.args))
}

/// The engine outputs of the dispatch stage over the tokenized events of
/// one tick, in event order: the typed command events of the parses that
/// succeeded and the error responses of the parses that failed. Events
/// whose name is not registered are left to the invalid-command
/// synthesizer.
pub open spec fn dispatch_all_model(entries: Seq<SpecModel>, evs: Seq<ArgsModel>) -> (Seq<
    DispatchModel,
>, Seq<RespModel>)
    decreases evs.len(),
{
    if evs.len() == 0 {
        (Seq::empty(), Seq::empty())
    } else {
        let prior = dispatch_all_model(entries, evs.drop_last());
        match reg_lookup(entries, evs.last().name) {
            Option::None => prior,
            Option::Some(s) => match dispatch_event_model(s, evs.last()) {
                Result::Ok(d) => (prior.0.push(d), prior.1),
                Result::Err(resp) => (prior.0, prior.1.push(resp)),
            },
        }
    }
}

/// Runs every registered dispatcher over the tokenized events of one tick.
pub fn dispatch_all(reg: &CommandMetaMap, evs: &Vec<CommandArgsInput>) -> (r: (
    Vec<CommandDispatch>,
    Vec<CommandResponse>,
))
    requires
        reg.inv(),
    ensures
        r.0.deep_view() == dispatch_all_model(reg@, evs.deep_view()).0,
        r.1.deep_view() == dispatch_all_model(reg@, evs.deep_view()).1,
{
    let mut dispatches: Vec<CommandDispatch> = Vec::new();
    let mut responses: Vec<CommandResponse> = Vec::new();
    let mut i: usize = 0;
    proof {
        assert(evs.deep_view().subrange(0, 0) =~= Seq::<ArgsModel>::empty());
        assert(dispatches.deep_view() =~= Seq::<DispatchModel>::empty());
        assert(responses.deep_view() =~= Seq::<RespModel>::empty());
    }
    while i < evs.len()
        invariant
            i <= evs.len(),
            reg.inv(),
            dispatches.deep_view() == dispatch_all_model(
                reg@,
                evs.deep_view().subrange(0, i as int),
            ).0,
            responses.deep_view() == dispatch_all_model(
                reg@,
                evs.deep_view().subrange(0, i as int),
            ).1,
        decreases evs.len() - i,
    {
        let ghost pre = evs.deep_view().subrange(0, i as int);
        proof {
            assert(evs.deep_view().subrange(0, i as int + 1).drop_last() =~= pre);
            assert(evs.deep_view().subrange(0, i as int + 1).last() == evs[i as int]@);
        }
        match reg.lookup(&evs[i].name) {
            Option::None => {},
            Option::Some(spec) => {
                proof {
                    lemma_reg_lookup_props(reg@, evs[i as int]@.name);
                }
                let ghost d0 = dispatches.deep_view();
                let ghost r0 = responses.deep_view();
                match dispatch_command(spec, &evs[i]) {
                    Result::Ok(d) => {
                        dispatches.push(d);
                        proof {
                            assert(dispatches.deep_view() =~= d0.push(
                                dispatch_event_model(spec@, evs[i as int]@)->Ok_0,
                            ));
                        }
                    },
                    Result::Err(resp) => {
                        responses.push(resp);
                        proof {
                            assert(responses.deep_view() =~= r0.push(
                                dispatch_event_model(spec@, evs[i as int]@)->Err_0,
                            ));
                        }
                    },
                }
            },
        }
        i = i + 1;
    }
    proof {
        assert(evs.deep_view().subrange(0, evs.len() as int) =~= evs.deep_view());
    }
    (dispatches, responses)
}

/// The display lines of the response synthesized for an unknown command
/// name.
pub open spec fn no_such_command_lines(name: Seq<char>) -> Seq<Seq<char>> {
    seq!["no such command: "@ + name]
}

/// The invalid-command events of one tick: one per tokenized event whose
/// name is not a key of the registry, in event order. Registry membership
/// is the test, independent of whether a later parse failed.
pub open spec fn invalid_marks_model(entries: Seq<SpecModel>, evs: Seq<ArgsModel>) -> Seq<
    InvalidModel,
>
    decreases evs.len(),
{
    if evs.len() == 0 {
        Seq::empty()
    } else {
        invalid_marks_model(entries, evs.drop_last()) + match reg_lookup(
            entries,
            evs.last().name,
        ) {
            Option::None => seq![
                InvalidModel { target: evs.last().sender, name: evs.last().name },
            ],
            Option::Some(_) => Seq::<InvalidModel>::empty(),
        }
    }
}

/// Marks every tokenized event of the tick whose name is not registered.
pub fn mark_invalid_commands(evs: &Vec<CommandArgsInput>, reg: &CommandMetaMap) -> (r: Vec<
    InvalidCommandInput,
>)
    ensures
        r.deep_view() == invalid_marks_model(reg@, evs.deep_view()),
{
    let mut r: Vec<InvalidCommandInput> = Vec::new();
    let mut i: usize = 0;
    proof {
        assert(evs.deep_view().subrange(0, 0) =~= Seq::<ArgsModel>::empty());
        assert(r.deep_view() =~= Seq::<InvalidModel>::empty());
    }
    while i < evs.len()
        invariant
            i <= evs.len(),
            r.deep_view() == invalid_marks_model(reg@, evs.deep_view().subrange(0, i as int)),
        decreases evs.len() - i,
    {
        let ghost pre = evs.deep_view().subrange(0, i as int);
        let ghost r0 = r.deep_view();
        proof {
            assert(evs.deep_view().subrange(0, i as int + 1).drop_last() =~= pre);
            assert(evs.deep_view().subrange(0, i as int + 1).last() == evs[i as int]@);
        }
        if !reg.contains(&evs[i].name) {
            r.push(InvalidCommandInput { target: evs[i].sender, name: evs[i].name.clone() });
            proof {
                assert(r.deep_view() =~= r0.push(
                    InvalidModel { target: evs[i as int]@.sender, name: evs[i as int]@.name },
                ));
            }
        }
        i = i + 1;
    }
    proof {
        assert(evs.deep_view().subrange(0, evs.len() as int) =~= evs.deep_view());
    }
    r
}

/// The response synthesized for one invalid-command event.
pub open spec fn invalid_resp_model(m: InvalidModel) -> RespModel {
    RespModel {
        target: m.target,
        lines: no_such_command_lines(m.name),
        outcome: Outcome::Failure,
    }
}

/// The responses synthesized for the invalid-command events of one tick.
pub open spec fn invalid_resps_model(ms: Seq<InvalidModel>) -> Seq<RespModel> {
    Seq::new(ms.len(), |i: int| invalid_resp_model(ms[i]))
}

/// Synthesizes a "no such command" error response for every invalid
/// command event, addressed to the event's sender.
pub fn invalid_command_response(events: &Vec<InvalidCommandInput>) -> (r: Vec<CommandResponse>)
    ensures
        r.deep_view() == invalid_resps_model(events.deep_view()),
{
    let mut r: Vec<CommandResponse> = Vec::new();
    let mut i: usize = 0;
    while i < events.len()
        invariant
            i <= events.len(),
            r.deep_view() =~= invalid_resps_model(events.deep_view()).subrange(0, i as int),
        decreases events.len() - i,
    {
        let ghost r0 = r.deep_view();
        let line = String::from_str("no such command: ").concat(events[i].name.as_str());
        let mut message: Vec<String> = Vec::new();
        message.push(line);
        proof {
            assert(message.deep_view() =~= no_such_command_lines(events[i as int]@.name));
        }
        r.push(CommandResponse::err(events[i].target, message));
        i = i + 1;
        proof {
            assert(r.deep_view() =~= r0.push(invalid_resp_model(events.deep_view()[i as int - 1])));
            assert(r.deep_view() =~= invalid_resps_model(events.deep_view()).subrange(0, i as int));
        }
    }
    proof {
        assert(invalid_resps_model(events.deep_view()).subrange(0, events.len() as int)
            =~= invalid_resps_model(events.deep_view()));
    }
    r
}

/// Events are dispatched independently: the outputs of a tick's event
/// sequence are the concatenated outputs of its parts, in order. With the
/// single-event laws below, each event contributes its own typed command
/// event or error response, whatever surrounds it in the tick.
pub proof fn lemma_dispatch_concat(entries: Seq<SpecModel>, evs1: Seq<ArgsModel>, evs2: Seq<
    ArgsModel,
>)
    ensures
        dispatch_all_model(entries, evs1 + evs2).0 == dispatch_all_model(entries, evs1).0
            + dispatch_all_model(entries, evs2).0,
        dispatch_all_model(entries, evs1 + evs2).1 == dispatch_all_model(entries, evs1).1
            + dispatch_all_model(entries, evs2).1,
        invalid_marks_model(entries, evs1 + evs2) == invalid_marks_model(entries, evs1)
            + invalid_marks_model(entries, evs2),
    decreases evs2.len(),
{
    if evs2.len() == 0 {
        assert(evs1 + evs2 =~= evs1);
        assert(dispatch_all_model(entries, evs2).0 =~= Seq::<DispatchModel>::empty());
        assert(dispatch_all_model(entries, evs2).1 =~= Seq::<RespModel>::empty());
        assert(invalid_marks_model(entries, evs2) =~= Seq::<InvalidModel>::empty());
        assert(dispatch_all_model(entries, evs1).0 + dispatch_all_model(entries, evs2).0
            =~= dispatch_all_model(entries, evs1).0);
        assert(dispatch_all_model(entries, evs1).1 + dispatch_all_model(entries, evs2).1
            =~= dispatch_all_model(entries, evs1).1);
        assert(invalid_marks_model(entries, evs1) + invalid_marks_model(entries, evs2)
            =~= invalid_marks_model(entries, evs1));
    } else {
        lemma_dispatch_concat(entries, evs1, evs2.drop_last());
        assert((evs1 + evs2).drop_last() =~= evs1 + evs2.drop_last());
        assert((evs1 + evs2).last() == evs2.last());
        assert(dispatch_all_model(entries, evs1).0 + dispatch_all_model(entries, evs2).0
            =~= dispatch_all_model(entries, evs1 + evs2).0);
        assert(dispatch_all_model(entries, evs1).1 + dispatch_all_model(entries, evs2).1
            =~= dispatch_all_model(entries, evs1 + evs2).1);
        assert(invalid_marks_model(entries, evs1) + invalid_marks_model(entries, evs2)
            =~= invalid_marks_model(entries, evs1 + evs2));
    }
}

/// A tokenized event with a registered name whose argument parse fails
/// produces exactly one error response, addressed to the event's sender,
/// and no typed command event; nor is it marked as an unknown command.
pub proof fn lemma_parse_failure_one_error(entries: Seq<SpecModel>, s: SpecModel, ev: ArgsModel)
    requires
        reg_lookup(entries, ev.name) == Option::Some(s),
        clap_outcome(s.name, s.fields, ev.args) is Err,
    ensures
        dispatch_all_model(entries, seq![ev]).0.len() == 0,
        dispatch_all_model(entries, seq![ev]).1.len() == 1,
        dispatch_all_model(entries, seq![ev]).1[0].target == ev.sender,
        dispatch_all_model(entries, seq![ev]).1[0].outcome == Outcome::Failure,
        invalid_marks_model(entries, seq![ev]).len() == 0,
{
    let evs = seq![ev];
    assert(evs.drop_last() =~= Seq::<ArgsModel>::empty());
    assert(evs.last() == ev);
    assert(dispatch_all_model(entries, Seq::<ArgsModel>::empty()) == (
        Seq::<DispatchModel>::empty(),
        Seq::<RespModel>::empty(),
    ));
    assert(invalid_marks_model(entries, Seq::<ArgsModel>::empty()) == Seq::<
        InvalidModel,
    >::empty());
    assert(dispatch_all_model(entries, evs).1 =~= seq![
        parse_failure_resp(ev.sender, clap_outcome(s.name, s.fields, ev.args)->Err_0),
    ]);
}

/// A tokenized event whose name is not in the registry produces exactly
/// one error response reading "no such command: <name>", addressed to the
/// event's sender, and no typed command event.
pub proof fn lemma_unknown_command_response(entries: Seq<SpecModel>, ev: ArgsModel)
    requires
        reg_lookup(entries, ev.name) is None,
    ensures
        dispatch_all_model(entries, seq![ev]).0.len() == 0,
        dispatch_all_model(entries, seq![ev]).1.len() == 0,
        invalid_resps_model(invalid_marks_model(entries, seq![ev])).len() == 1,
        invalid_resps_model(invalid_marks_model(entries, seq![ev]))[0] == (RespModel {
            target: ev.sender,
            lines: no_such_command_lines(ev.name),
            outcome: Outcome::Failure,
        }),
{
    let evs = seq![ev];
    assert(evs.drop_last() =~= Seq::<ArgsModel>::empty());
    assert(evs.last() == ev);
    assert(dispatch_all_model(entries, Seq::<ArgsModel>::empty()) == (
        Seq::<DispatchModel>::empty(),
        Seq::<RespModel>::empty(),
    ));
    assert(invalid_marks_model(entries, Seq::<ArgsModel>::empty()) == Seq::<
        InvalidModel,
    >::empty());
    assert(invalid_marks_model(entries, evs) =~= seq![
        InvalidModel { target: ev.sender, name: ev.name },
    ]);
}

/// Whatever else a tick holds, an event with a registered name whose parse
/// fails adds exactly one error response to its sender and no typed
/// command event, in its place in event order.
pub proof fn lemma_parse_failure_in_tick(
    entries: Seq<SpecModel>,
    s: SpecModel,
    before: Seq<ArgsModel>,
    ev: ArgsModel,
    after: Seq<ArgsModel>,
)
    requires
        reg_lookup(entries, ev.name) == Option::Some(s),
        clap_outcome(s.name, s.fields, ev.args) is Err,
    ensures
        dispatch_all_model(entries, before + seq![ev] + after).0 == dispatch_all_model(
            entries,
            before,
        ).0 + dispatch_all_model(entries, after).0,
        dispatch_all_model(entries, before + seq![ev] + after).1 == dispatch_all_model(
            entries,
            before,
        ).1 + seq![
            parse_failure_resp(ev.sender, clap_outcome(s.name, s.fields, ev.args)->Err_0),
        ] + dispatch_all_model(entries, after).1,
        invalid_marks_model(entries, before + seq![ev] + after) == invalid_marks_model(
            entries,
            before,
        ) + invalid_marks_model(entries, after),
{
    lemma_dispatch_concat(entries, before, seq![ev]);
    lemma_dispatch_concat(entries, before + seq![ev], after);
    lemma_parse_failure_one_error(entries, s, ev);
    assert(dispatch_all_model(entries, before + seq![ev]).0 =~= dispatch_all_model(
        entries,
        before,
    ).0);
    assert(dispatch_all_model(entries, before + seq![ev] + after).1 =~= dispatch_all_model(
        entries,
        before,
    ).1 + seq![
        parse_failure_resp(ev.sender, clap_outcome(s.name, s.fields, ev.args)->Err_0),
    ] + dispatch_all_model(entries, after).1);
    assert(invalid_marks_model(entries, before + seq![ev] + after) =~= invalid_marks_model(
        entries,
        before,
    ) + invalid_marks_model(entries, after));
}

/// Whatever else a tick holds, an event with an unregistered name adds
/// exactly one invalid-command mark — hence exactly one "no such command"
/// error response — and no typed command event and no other response.
pub proof fn lemma_unknown_command_in_tick(
    entries: Seq<SpecModel>,
    before: Seq<ArgsModel>,
    ev: ArgsModel,
    after: Seq<ArgsModel>,
)
    requires
        reg_lookup(entries, ev.name) is None,
    ensures
        dispatch_all_model(entries, before + seq![ev] + after).0 == dispatch_all_model(
            entries,
            before,
        ).0 + dispatch_all_model(entries, after).0,
        dispatch_all_model(entries, before + seq![ev] + after).1 == dispatch_all_model(
            entries,
            before,
        ).1 + dispatch_all_model(entries, after).1,
        invalid_marks_model(entries, before + seq![ev] + after) == invalid_marks_model(
            entries,
            before,
        ) + seq![InvalidModel { target: ev.sender, name: ev.name }] + invalid_marks_model(
            entries,
            after,
        ),
{
    lemma_dispatch_concat(entries, before, seq![ev]);
    lemma_dispatch_concat(entries, before + seq![ev], after);
    lemma_unknown_command_response(entries, ev);
    assert(invalid_marks_model(entries, seq![ev]) =~= seq![
        InvalidModel { target: ev.sender, name: ev.name },
    ]);
    assert(dispatch_all_model(entries, before + seq![ev] + after).0 =~= dispatch_all_model(
        entries,
        before,
    ).0 + dispatch_all_model(entries, after).0);
    assert(dispatch_all_model(entries, before + seq![ev] + after).1 =~= dispatch_all_model(
        entries,
        before,
    ).1 + dispatch_all_model(entries, after).1);
    assert(invalid_marks_model(entries, before + seq![ev] + after) =~= invalid_marks_model(
        entries,
        before,
    ) + seq![InvalidModel { target: ev.sender, name: ev.name }] + invalid_marks_model(
        entries,
        after,
    ));
}

} // verus!
