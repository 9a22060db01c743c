//! Tests of argument parsing and the built-in commands.

use commander::echo::echo;
use commander::exit::exit;
use commander::help::{help, render_listing};
use commander::parse::parse_args;
use commander::{
    CommandContext, CommandDispatch, CommandMetaMap, CommandSpec, Echo, FieldSpec, Help, Outcome,
    ParsedArgs, SenderId,
};

fn parse_ok(spec: &CommandSpec, args: &[&str]) -> ParsedArgs {
    let args: Vec<String> = args.iter().map(|a| String::from(*a)).collect();
    parse_args(spec, &args).expect("arguments must parse")
}

#[test]
fn echo_parses_its_message() {
    let spec = Echo::spec();
    let parsed = parse_ok(&spec, &["hello there"]);
    assert_eq!(parsed.value_of(&String::from("message")), Some(String::from("hello there")));
    let typed = Echo::from_args(&parsed).expect("message must be bound");
    assert_eq!(typed.message, "hello there");
}

#[test]
fn echo_rejects_missing_and_extra_arguments() {
    let spec = Echo::spec();
    let none: Vec<String> = Vec::new();
    let err = parse_args(&spec, &none).expect_err("a required field must be demanded");
    assert!(!err.is_empty());
    let extra = vec![String::from("a"), String::from("b")];
    assert!(parse_args(&spec, &extra).is_err());
}

#[test]
fn echo_responds_with_its_message() {
    let spec = Echo::spec();
    let parsed = parse_ok(&spec, &["hi"]);
    let mut ctx = CommandContext::new(SenderId(3), parsed);
    echo(&mut ctx);
    let responses = ctx.into_responses();
    assert_eq!(responses.len(), 1);
    assert_eq!(responses[0].target, SenderId(3));
    assert_eq!(responses[0].outcome, Outcome::Success);
    assert_eq!(responses[0].message, vec![String::from("hi")]);
}

#[test]
fn exit_requests_shutdown_only_when_invoked() {
    let empty: Vec<CommandDispatch> = Vec::new();
    assert!(!exit(&empty));
    let spec = commander::Exit::spec();
    let parsed = parse_ok(&spec, &[]);
    let queue = vec![CommandDispatch {
        sender: SenderId(1),
        name: String::from("exit"),
        data: parsed,
    }];
    assert!(exit(&queue));
}

#[test]
fn flags_take_values_and_defaults() {
    let spec = CommandSpec::new(
        String::from("repeat"),
        String::from("Repeats a message."),
        String::from("Repeats a message."),
        vec![
            FieldSpec::positional(String::from("message"), true, String::from("What to say.")),
            FieldSpec::flag(
                String::from("count"),
                Some(String::from("1")),
                String::from("How often."),
            ),
        ],
    );
    let parsed = parse_ok(&spec, &["hi", "--count", "3"]);
    assert_eq!(parsed.value_of(&String::from("message")), Some(String::from("hi")));
    assert_eq!(parsed.value_of(&String::from("count")), Some(String::from("3")));

    let defaulted = parse_ok(&spec, &["hi"]);
    assert_eq!(defaulted.value_of(&String::from("count")), Some(String::from("1")));
    assert_eq!(defaulted.value_of(&String::from("absent")), None);
}

#[test]
fn optional_positional_may_be_absent() {
    let spec = Help::spec();
    let parsed = parse_ok(&spec, &[]);
    assert_eq!(parsed.value_of(&String::from("query")), None);
    let typed = Help::from_args(&parsed);
    assert_eq!(typed.query, None);

    let parsed = parse_ok(&spec, &["echo"]);
    let typed = Help::from_args(&parsed);
    assert_eq!(typed.query, Some(String::from("echo")));
}

#[test]
fn help_lists_commands_aligned() {
    let mut reg = CommandMetaMap::new();
    reg.register(Echo::spec());
    reg.register(CommandSpec::new(
        String::from("go"),
        String::from("Moves."),
        String::from("Moves."),
        Vec::new(),
    ));
    reg.register(CommandSpec::new(
        String::from("silent"),
        String::new(),
        String::new(),
        Vec::new(),
    ));
    let lines = render_listing(&reg);
    assert_eq!(
        lines,
        vec![
            String::from("Available commands:"),
            String::from("  echo   - Displays text back to the sender."),
            String::from("  go     - Moves."),
            String::from("  silent"),
        ]
    );
}

#[test]
fn help_answers_a_query() {
    let mut reg = CommandMetaMap::new();
    reg.register(Echo::spec());
    let spec = Help::spec();
    let parsed = parse_ok(&spec, &["echo"]);
    let mut ctx = CommandContext::new(SenderId(9), parsed);
    help(&mut ctx, &reg);
    let responses = ctx.into_responses();
    assert_eq!(responses.len(), 1);
    assert_eq!(responses[0].outcome, Outcome::Success);
    assert_eq!(responses[0].message, vec![String::from("Displays text back to the sender.")]);
}

#[test]
fn help_rejects_an_unknown_query() {
    let reg = CommandMetaMap::new();
    let spec = Help::spec();
    let parsed = parse_ok(&spec, &["bogus"]);
    let mut ctx = CommandContext::new(SenderId(9), parsed);
    help(&mut ctx, &reg);
    let responses = ctx.into_responses();
    assert_eq!(responses.len(), 1);
    assert_eq!(responses[0].outcome, Outcome::Failure);
    assert_eq!(responses[0].message, vec![String::from("no such command: bogus")]);
}

#[test]
fn help_flag_renders_usage_as_error() {
    let spec = Echo::spec();
    let args = vec![String::from("--help")];
    let err = parse_args(&spec, &args).expect_err("the help flag interrupts parsing");
    assert!(err.contains("echo"));
}
