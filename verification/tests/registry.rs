//! Tests of the command registry: registration, overwriting, lookup and
//! the read-only help views.

use commander::{CommandMetaMap, CommandSpec, FieldSpec};

fn spec_with_summary(name: &str, summary: &str) -> CommandSpec {
    CommandSpec::new(
        String::from(name),
        String::from(summary),
        String::from(summary),
        Vec::new(),
    )
}

#[test]
fn register_returns_prior_spec_and_last_writer_wins() {
    let mut reg = CommandMetaMap::new();
    let first = spec_with_summary("greet", "first version");
    let second = spec_with_summary("greet", "second version");

    let prev1 = reg.register(first);
    assert!(prev1.is_none());

    let prev2 = reg.register(second);
    let prev2 = prev2.expect("second registration must return the first spec");
    assert_eq!(prev2.summary, "first version");

    let found = reg.lookup(&String::from("greet")).expect("name must stay registered");
    assert_eq!(found.summary, "second version");
}

#[test]
fn lookup_misses_unknown_names() {
    let mut reg = CommandMetaMap::new();
    assert!(reg.lookup(&String::from("absent")).is_none());
    reg.register(spec_with_summary("present", "a command"));
    assert!(reg.lookup(&String::from("absent")).is_none());
    assert!(reg.contains(&String::from("present")));
    assert!(!reg.contains(&String::from("absent")));
}

#[test]
fn names_and_listing_follow_registration_order() {
    let mut reg = CommandMetaMap::new();
    reg.register(spec_with_summary("bravo", "second"));
    reg.register(spec_with_summary("alpha", "first"));
    assert_eq!(reg.names(), vec![String::from("bravo"), String::from("alpha")]);
    assert_eq!(
        reg.list_commands(),
        vec![
            (String::from("bravo"), String::from("second")),
            (String::from("alpha"), String::from("first")),
        ]
    );
}

#[test]
fn overwriting_keeps_the_registry_position() {
    let mut reg = CommandMetaMap::new();
    reg.register(spec_with_summary("alpha", "one"));
    reg.register(spec_with_summary("bravo", "two"));
    let prev = reg.register(spec_with_summary("alpha", "newer"));
    assert_eq!(prev.expect("the prior spec comes back").summary, "one");
    assert_eq!(reg.names(), vec![String::from("alpha"), String::from("bravo")]);
    assert_eq!(reg.lookup(&String::from("alpha")).unwrap().summary, "newer");
}

#[test]
fn render_help_reads_the_long_help() {
    let mut reg = CommandMetaMap::new();
    let spec = CommandSpec::new(
        String::from("wave"),
        String::from("Waves."),
        String::from("Waves.\n\nA longer explanation."),
        Vec::new(),
    );
    reg.register(spec);
    assert_eq!(
        reg.render_help(&String::from("wave")),
        Some(String::from("Waves.\n\nA longer explanation."))
    );
    assert_eq!(reg.render_help(&String::from("missing")), None);
}

#[test]
fn well_formedness_is_decided() {
    let ok = CommandSpec::new(
        String::from("go"),
        String::new(),
        String::new(),
        vec![
            FieldSpec::positional(String::from("target"), true, String::new()),
            FieldSpec::flag(String::from("speed"), Some(String::from("1")), String::new()),
        ],
    );
    assert!(ok.is_well_formed());

    let empty_name = CommandSpec::new(String::new(), String::new(), String::new(), Vec::new());
    assert!(!empty_name.is_well_formed());

    let duplicate_ids = CommandSpec::new(
        String::from("go"),
        String::new(),
        String::new(),
        vec![
            FieldSpec::positional(String::from("x"), true, String::new()),
            FieldSpec::flag(String::from("x"), None, String::new()),
        ],
    );
    assert!(!duplicate_ids.is_well_formed());

    let help_collision = CommandSpec::new(
        String::from("go"),
        String::new(),
        String::new(),
        vec![FieldSpec::flag(String::from("help"), None, String::new())],
    );
    assert!(!help_collision.is_well_formed());

    let required_after_optional = CommandSpec::new(
        String::from("go"),
        String::new(),
        String::new(),
        vec![
            FieldSpec::positional(String::from("a"), false, String::new()),
            FieldSpec::positional(String::from("b"), true, String::new()),
        ],
    );
    assert!(!required_after_optional.is_well_formed());
}
