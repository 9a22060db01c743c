//! Tests of the shell-style tokenizer and the line splitter.

use commander::text::split_lines;
use commander::tokenize::{parse_command_bufs, tokenize};
use commander::{CommandBufInput, SenderId};

#[test]
fn blank_lines_yield_no_words() {
    assert_eq!(tokenize(""), Some(Vec::new()));
    assert_eq!(tokenize("  "), Some(Vec::new()));
    assert_eq!(tokenize(" \t \n "), Some(Vec::new()));
}

#[test]
fn blank_lines_yield_no_events() {
    let bufs = vec![
        CommandBufInput { sender: SenderId(1), buf: String::from("  ") },
        CommandBufInput { sender: SenderId(1), buf: String::from("") },
    ];
    let events = parse_command_bufs(&bufs);
    assert_eq!(events.len(), 0);
}

#[test]
fn quoted_substring_stays_one_token() {
    assert_eq!(
        tokenize("echo \"hello world\""),
        Some(vec![String::from("echo"), String::from("hello world")])
    );
    let bufs = vec![CommandBufInput {
        sender: SenderId(7),
        buf: String::from("echo \"hello world\""),
    }];
    let events = parse_command_bufs(&bufs);
    assert_eq!(events.len(), 1);
    assert_eq!(events[0].sender, SenderId(7));
    assert_eq!(events[0].name, "echo");
    assert_eq!(events[0].args, vec![String::from("hello world")]);
}

#[test]
fn tokenizer_matches_reference_lexer() {
    let inputs = [
        "foo$baz",
        "foo baz",
        "foo\"bar\"baz",
        "foo \"bar\"baz",
        "   foo \nbar",
        "foo\\\nbar",
        "\"foo\\\nbar\"",
        "'baz\\$b'",
        "'baz\\''",
        "\\",
        "\"\\",
        "'\\",
        "\"",
        "'",
        "foo #bar\nbaz",
        "foo #bar",
        "foo#bar",
        "foo\"#bar",
        "'\\n'",
        "'\\\\n'",
        "",
        "  ",
        "''",
        "\"\"",
        "a 'b c' \"d e\"",
        "repeat hi --count 3",
        "x \"a\\\"b\" y",
        "mixed'quo'\"ting\" done",
    ];
    for input in inputs {
        assert_eq!(tokenize(input), shlex::split(input), "input: {:?}", input);
    }
}

#[test]
fn erroneous_lines_are_dropped() {
    let bufs = vec![CommandBufInput { sender: SenderId(1), buf: String::from("\"unclosed") }];
    let events = parse_command_bufs(&bufs);
    assert_eq!(events.len(), 0);
}

#[test]
fn empty_quotes_make_empty_tokens() {
    assert_eq!(tokenize("'' x"), Some(vec![String::from(""), String::from("x")]));
}

#[test]
fn split_lines_divides_display_lines() {
    assert_eq!(split_lines(""), Vec::<String>::new());
    assert_eq!(split_lines("one"), vec![String::from("one")]);
    assert_eq!(split_lines("a\nb"), vec![String::from("a"), String::from("b")]);
    assert_eq!(split_lines("a\nb\n"), vec![String::from("a"), String::from("b")]);
    assert_eq!(split_lines("a\r\nb"), vec![String::from("a"), String::from("b")]);
    assert_eq!(
        split_lines("a\n\nb"),
        vec![String::from("a"), String::from(""), String::from("b")]
    );
}
