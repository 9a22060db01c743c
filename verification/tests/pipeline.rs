//! End-to-end tests of a full tick: submit, tokenize, dispatch, process,
//! respond, deliver.

use commander::{
    CommandMetaMap, CommandResponse, CommandSpec, ConsoleTick, Echo, FieldSpec, Outcome, SenderId,
};

fn repeat_spec() -> CommandSpec {
    CommandSpec::new(
        String::from("repeat"),
        String::from("Repeats a message."),
        String::from("Repeats a message."),
        vec![
            FieldSpec::positional(String::from("message"), true, String::from("What to say.")),
            FieldSpec::flag(
                String::from("count"),
                Some(String::from("1")),
                String::from("How often."),
            ),
        ],
    )
}

/// Runs one tick: submits the lines, lets the `repeat` handler consume its
/// typed events, and returns what `target` receives.
fn run_tick(
    tick: &mut ConsoleTick,
    reg: &CommandMetaMap,
    lines: &[(SenderId, &str)],
    target: SenderId,
) -> Vec<CommandResponse> {
    for (sender, line) in lines {
        tick.submit_line(*sender, String::from(*line));
    }
    tick.tokenize_inputs();
    tick.dispatch_inputs(reg);
    let dispatches = tick.take_dispatches();
    for d in dispatches {
        if d.name == "repeat" {
            let message = d.data.value_of(&String::from("message")).unwrap();
            let count: u32 = d
                .data
                .value_of(&String::from("count"))
                .unwrap()
                .parse()
                .expect("count must be a number");
            for _ in 0..count {
                tick.push_response(CommandResponse::ok(d.sender, vec![message.clone()]));
            }
        }
    }
    tick.begin_respond();
    let delivered = tick.deliver(target);
    tick.complete();
    delivered
}

#[test]
fn repeat_with_count_yields_three_identical_responses() {
    let mut reg = CommandMetaMap::new();
    reg.register(repeat_spec());
    let s = SenderId(5);
    let mut tick = ConsoleTick::new();
    let delivered = run_tick(&mut tick, &reg, &[(s, "repeat hi --count 3")], s);
    assert_eq!(delivered.len(), 3);
    for resp in &delivered {
        assert_eq!(resp.target, s);
        assert_eq!(resp.outcome, Outcome::Success);
        assert_eq!(resp.message, vec![String::from("hi")]);
    }
}

#[test]
fn unknown_command_gets_exactly_one_error() {
    let reg = CommandMetaMap::new();
    let s = SenderId(2);
    let mut tick = ConsoleTick::new();
    let delivered = run_tick(&mut tick, &reg, &[(s, "bogus arg1")], s);
    assert_eq!(delivered.len(), 1);
    assert_eq!(delivered[0].target, s);
    assert_eq!(delivered[0].outcome, Outcome::Failure);
    assert_eq!(delivered[0].message, vec![String::from("no such command: bogus")]);
}

#[test]
fn parse_failure_gets_exactly_one_error_and_no_typed_event() {
    let mut reg = CommandMetaMap::new();
    reg.register(repeat_spec());
    let s = SenderId(4);
    let mut tick = ConsoleTick::new();
    tick.submit_line(s, String::from("repeat"));
    tick.tokenize_inputs();
    tick.dispatch_inputs(&reg);
    let dispatches = tick.take_dispatches();
    assert_eq!(dispatches.len(), 0);
    tick.begin_respond();
    let delivered = tick.deliver(s);
    tick.complete();
    assert_eq!(delivered.len(), 1);
    assert_eq!(delivered[0].outcome, Outcome::Failure);
    assert!(!delivered[0].message.is_empty());
}

#[test]
fn blank_lines_produce_nothing_downstream() {
    let reg = CommandMetaMap::new();
    let s = SenderId(1);
    let mut tick = ConsoleTick::new();
    let delivered = run_tick(&mut tick, &reg, &[(s, "  "), (s, "")], s);
    assert_eq!(delivered.len(), 0);
}

#[test]
fn responses_go_to_their_own_sender_only() {
    let mut reg = CommandMetaMap::new();
    reg.register(repeat_spec());
    let a = SenderId(10);
    let b = SenderId(11);
    let mut tick = ConsoleTick::new();
    for (sender, line) in [(a, "repeat one"), (b, "nope"), (a, "broken \"")] {
        tick.submit_line(sender, String::from(line));
    }
    tick.tokenize_inputs();
    tick.dispatch_inputs(&reg);
    let dispatches = tick.take_dispatches();
    for d in dispatches {
        let message = d.data.value_of(&String::from("message")).unwrap();
        tick.push_response(CommandResponse::ok(d.sender, vec![message]));
    }
    tick.begin_respond();
    let for_a = tick.deliver(a);
    let for_b = tick.deliver(b);
    tick.complete();
    assert_eq!(for_a.len(), 1);
    assert_eq!(for_a[0].outcome, Outcome::Success);
    assert_eq!(for_a[0].message, vec![String::from("one")]);
    assert_eq!(for_b.len(), 1);
    assert_eq!(for_b[0].outcome, Outcome::Failure);
    assert_eq!(for_b[0].message, vec![String::from("no such command: nope")]);
}

#[test]
fn same_line_twice_gives_identical_response_sequences() {
    let mut reg = CommandMetaMap::new();
    reg.register(repeat_spec());
    let s = SenderId(6);
    let mut tick = ConsoleTick::new();
    let first = run_tick(&mut tick, &reg, &[(s, "repeat again --count 2")], s);
    let second = run_tick(&mut tick, &reg, &[(s, "repeat again --count 2")], s);
    assert_eq!(first.len(), second.len());
    for (x, y) in first.iter().zip(second.iter()) {
        assert_eq!(x.target, y.target);
        assert_eq!(x.outcome, y.outcome);
        assert_eq!(x.message, y.message);
    }
}

#[test]
fn engine_errors_precede_handler_responses_per_target() {
    let mut reg = CommandMetaMap::new();
    reg.register(repeat_spec());
    let s = SenderId(8);
    let mut tick = ConsoleTick::new();
    let delivered = run_tick(&mut tick, &reg, &[(s, "missing arg"), (s, "repeat ok")], s);
    assert_eq!(delivered.len(), 2);
    assert_eq!(delivered[0].outcome, Outcome::Failure);
    assert_eq!(delivered[0].message, vec![String::from("no such command: missing")]);
    assert_eq!(delivered[1].outcome, Outcome::Success);
    assert_eq!(delivered[1].message, vec![String::from("ok")]);
}

#[test]
fn tick_always_ends_idle() {
    let reg = CommandMetaMap::new();
    let mut tick = ConsoleTick::new();
    assert_eq!(tick.phase, commander::TickPhase::Idle);
    let _ = run_tick(&mut tick, &reg, &[(SenderId(1), "anything goes")], SenderId(1));
    assert_eq!(tick.phase, commander::TickPhase::Idle);
}

#[test]
fn echo_end_to_end() {
    let mut reg = CommandMetaMap::new();
    reg.register(Echo::spec());
    let s = SenderId(12);
    let mut tick = ConsoleTick::new();
    tick.submit_line(s, String::from("echo \"hello world\""));
    tick.tokenize_inputs();
    tick.dispatch_inputs(&reg);
    let dispatches = tick.take_dispatches();
    assert_eq!(dispatches.len(), 1);
    for d in dispatches {
        let mut ctx = commander::CommandContext::new(d.sender, d.data);
        commander::echo::echo(&mut ctx);
        for resp in ctx.into_responses() {
            tick.push_response(resp);
        }
    }
    tick.begin_respond();
    let delivered = tick.deliver(s);
    tick.complete();
    assert_eq!(delivered.len(), 1);
    assert_eq!(delivered[0].outcome, Outcome::Success);
    assert_eq!(delivered[0].message, vec![String::from("hello world")]);
}
