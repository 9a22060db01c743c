//! Shell-style tokenization of raw command lines.
//!
//! A line is split into words at unquoted whitespace. Single quotes keep
//! every character literal; double quotes keep whitespace and let a
//! backslash escape `$`, `` ` ``, `"`, `\` and line feeds; an unquoted
//! backslash escapes the next character; an unquoted `#` starts a comment
//! reaching to the end of the line. A line that ends inside a quotation or
//! right after an unescaped backslash is erroneous and yields no words.

use vstd::prelude::*;

use crate::events::{ArgsModel, BufModel, CommandArgsInput, CommandBufInput};
use crate::text::chars_to_string;

verus! {

/// Whitespace that separates words.
pub open spec fn is_space(c: char) -> bool {
    c == ' ' || c == '\t' || c == '\n'
}

/// State of the tokenizer between two characters: outside any word, inside
/// a comment, inside a word (plain, after a backslash, in single quotes, in
/// double quotes, or in double quotes after a backslash). Word states carry
/// the characters of the word read so far.
pub ghost enum LexState {
    Delim,
    Comment,
    Word(Seq<char>),
    WordEsc(Seq<char>),
    Single(Seq<char>),
    Double(Seq<char>),
    DoubleEsc(Seq<char>),
}

/// One transition of the tokenizer: reading character `c` in state `st`
/// with the completed words `toks` yields the next state and words.
pub open spec fn lex_step(st: LexState, toks: Seq<Seq<char>>, c: char) -> (LexState, Seq<
    Seq<char>,
>) {
    match st {
        LexState::Delim => {
            if is_space(c) {
                (LexState::Delim, toks)
            } else if c == '#' {
                (LexState::Comment, toks)
            } else if c == '"' {
                (LexState::Double(Seq::empty()), toks)
            } else if c == '\'' {
                (LexState::Single(Seq::empty()), toks)
            } else if c == '\\' {
                (LexState::WordEsc(Seq::empty()), toks)
            } else {
                (LexState::Word(seq![c]), toks)
            }
        },
        LexState::Comment => {
            if c == '\n' {
                (LexState::Delim, toks)
            } else {
                (LexState::Comment, toks)
            }
        },
        LexState::Word(cur) => {
            if is_space(c) {
                (LexState::Delim, toks.push(cur))
            } else if c == '"' {
                (LexState::Double(cur), toks)
            } else if c == '\'' {
                (LexState::Single(cur), toks)
            } else if c == '\\' {
                (LexState::WordEsc(cur), toks)
            } else {
                (LexState::Word(cur.push(c)), toks)
            }
        },
        LexState::WordEsc(cur) => {
            if c == '\n' {
                (LexState::Word(cur), toks)
            } else {
                (LexState::Word(cur.push(c)), toks)
            }
        },
        LexState::Single(cur) => {
            if c == '\'' {
                (LexState::Word(cur), toks)
            } else {
                (LexState::Single(cur.push(c)), toks)
            }
        },
        LexState::Double(cur) => {
            if c == '"' {
                (LexState::Word(cur), toks)
            } else if c == '\\' {
                (LexState::DoubleEsc(cur), toks)
            } else {
                (LexState::Double(cur.push(c)), toks)
            }
        },
        LexState::DoubleEsc(cur) => {
            if c == '$' || c == '`' || c == '"' || c == '\\' {
                (LexState::Double(cur.push(c)), toks)
            } else if c == '\n' {
                (LexState::Double(cur), toks)
            } else {
                (LexState::Double(cur.push('\\').push(c)), toks)
            }
        },
    }
}

/// What the tokenizer yields when the line ends in state `st`: a word in
/// progress is completed, while an open quotation or a trailing backslash
/// makes the whole line erroneous.
pub open spec fn lex_finish(st: LexState, toks: Seq<Seq<char>>) -> Option<Seq<Seq<char>>> {
    match st {
        LexState::Delim => Some(toks),
        LexState::Comment => Some(toks),
        LexState::Word(cur) => Some(toks.push(cur)),
        _ => None,
    }
}

/// Runs the tokenizer over the remaining characters `s`.
pub open spec fn lex_from(st: LexState, toks: Seq<Seq<char>>, s: Seq<char>) -> Option<Seq<
    Seq<char>,
>>
    decreases s.len(),
{
    if s.len() == 0 {
        lex_finish(st, toks)
    } else {
        lex_from(lex_step(st, toks, s[0]).0, lex_step(st, toks, s[0]).1, s.drop_first())
    }
}

/// The words of a command line under shell-style quoting, or nothing if the
/// line is erroneous.
pub open spec fn shell_words(s: Seq<char>) -> Option<Seq<Seq<char>>> {
    lex_from(LexState::Delim, Seq::empty(), s)
}

/// Executable tokenizer states; the word in progress is kept beside it.
enum LexMode {
    Delim,
    Comment,
    Word,
    WordEsc,
    Single,
    Double,
    DoubleEsc,
}

/// The abstract state represented by an executable state and the word in
/// progress.
spec fn mode_model(m: LexMode, cur: Seq<char>) -> LexState {
    match m {
        LexMode::Delim => LexState::Delim,
        LexMode::Comment => LexState::Comment,
        LexMode::Word => LexState::Word(cur),
        LexMode::WordEsc => LexState::WordEsc(cur),
        LexMode::Single => LexState::Single(cur),
        LexMode::Double => LexState::Double(cur),
        LexMode::DoubleEsc => LexState::DoubleEsc(cur),
    }
}

/// Splits a line into shell-style words. Returns nothing exactly when the
/// line is erroneous (an unclosed quotation or a trailing backslash).
pub fn tokenize(line: &str) -> (r: Option<Vec<String>>)
    ensures
        match r {
            Some(toks) => shell_words(line@) == Some(toks.deep_view()),
            None => shell_words(line@) is None,
        },
{
    let n = line.unicode_len();
    let mut mode = LexMode::Delim;
    let mut cur: Vec<char> = Vec::new();
    let mut toks: Vec<String> = Vec::new();
    let mut i: usize = 0;
    proof {
        assert(line@.skip(0) =~= line@);
        assert(toks.deep_view() =~= Seq::<Seq<char>>::empty());
    }
    while i < n
        invariant
            n == line@.len(),
            i <= n,
            shell_words(line@) == lex_from(
                mode_model(mode, cur@),
                toks.deep_view(),
                line@.skip(i as int),
            ),
        decreases n - i,
    {
        let ghost s = line@.skip(i as int);
        let ghost st0 = mode_model(mode, cur@);
        let ghost toks0 = toks.deep_view();
        let c = line.get_char(i);
        proof {
            assert(s[0] == c);
            assert(s.drop_first() =~= line@.skip(i as int + 1));
        }
        match mode {
            LexMode::Delim => {
                if c == ' ' || c == '\t' || c == '\n' {
                } else if c == '#' {
                    mode = LexMode::Comment;
                } else if c == '"' {
                    cur.clear();
                    mode = LexMode::Double;
                } else if c == '\'' {
                    cur.clear();
                    mode = LexMode::Single;
                } else if c == '\\' {
                    cur.clear();
                    mode = LexMode::WordEsc;
                } else {
                    cur.clear();
                    cur.push(c);
                    mode = LexMode::Word;
                }
            },
            LexMode::Comment => {
                if c == '\n' {
                    mode = LexMode::Delim;
                }
            },
            LexMode::Word => {
                let ghost w = cur@;
                if c == ' ' || c == '\t' || c == '\n' {
                    toks.push(chars_to_string(&cur));
                    cur.clear();
                    mode = LexMode::Delim;
                    proof {
                        assert(toks.deep_view() =~= toks0.push(w));
                        assert(lex_step(st0, toks0, c).1 == toks0.push(w));
                    }
                } else if c == '"' {
                    mode = LexMode::Double;
                } else if c == '\'' {
                    mode = LexMode::Single;
                } else if c == '\\' {
                    mode = LexMode::WordEsc;
                } else {
                    cur.push(c);
                }
            },
            LexMode::WordEsc => {
                if c == '\n' {
                    mode = LexMode::Word;
                } else {
                    cur.push(c);
                    mode = LexMode::Word;
                }
            },
            LexMode::Single => {
                if c == '\'' {
                    mode = LexMode::Word;
                } else {
                    cur.push(c);
                }
            },
            LexMode::Double => {
                if c == '"' {
                    mode = LexMode::Word;
                } else if c == '\\' {
                    mode = LexMode::DoubleEsc;
                } else {
                    cur.push(c);
                }
            },
            LexMode::DoubleEsc => {
                if c == '$' || c == '`' || c == '"' || c == '\\' {
                    cur.push(c);
                    mode = LexMode::Double;
                } else if c == '\n' {
                    mode = LexMode::Double;
                } else {
                    cur.push('\\');
                    cur.push(c);
                    mode = LexMode::Double;
                }
            },
        }
        i = i + 1;
    }
    proof {
        assert(line@.skip(n as int) =~= Seq::<char>::empty());
    }
    match mode {
        LexMode::Delim => Some(toks),
        LexMode::Comment => Some(toks),
        LexMode::Word => {
            let ghost toks0 = toks.deep_view();
            toks.push(chars_to_string(&cur));
            proof {
                assert(toks.deep_view() =~= toks0.push(cur@));
            }
            Some(toks)
        },
        _ => None,
    }
}

/// The tokenized event produced by a raw input event: none for a blank,
/// comment-only or erroneous line, else the leading word names the command
/// and the remaining words are its arguments.
pub open spec fn tokenized_of(ev: BufModel) -> Option<ArgsModel> {
    match shell_words(ev.text) {
        None => None,
        Some(toks) => if toks.len() == 0 {
            None
        } else {
            Some(ArgsModel { sender: ev.sender, name: toks[0], args: toks.drop_first() })
        },
    }
}

/// Between words, whitespace only moves the tokenizer along.
proof fn lemma_blank_from(toks: Seq<Seq<char>>, s: Seq<char>)
    requires
        forall|i: int| 0 <= i < s.len() ==> is_space(#[trigger] s[i]),
    ensures
        lex_from(LexState::Delim, toks, s) == Option::Some(toks),
    decreases s.len(),
{
    if s.len() > 0 {
        assert(lex_step(LexState::Delim, toks, s[0]) == (LexState::Delim, toks));
        assert(forall|i: int|
            0 <= i < s.drop_first().len() ==> is_space(#[trigger] s.drop_first()[i]));
        lemma_blank_from(toks, s.drop_first());
    }
}

/// A blank or whitespace-only line yields no words at all, so no tokenized
/// event follows from it.
pub proof fn lemma_blank_line_yields_nothing(ev: BufModel)
    requires
        forall|i: int| 0 <= i < ev.text.len() ==> is_space(#[trigger] ev.text[i]),
    ensures
        shell_words(ev.text) == Option::Some(Seq::<Seq<char>>::empty()),
        tokenized_of(ev) is None,
{
    lemma_blank_from(Seq::empty(), ev.text);
}

/// The tokenized events of a sequence of raw input events, in order; raw
/// events that yield no words are dropped.
pub open spec fn tokenize_all(bufs: Seq<BufModel>) -> Seq<ArgsModel>
    decreases bufs.len(),
{
    if bufs.len() == 0 {
        Seq::empty()
    } else {
        tokenize_all(bufs.drop_last()) + match tokenized_of(bufs.last()) {
            None => Seq::<ArgsModel>::empty(),
            Some(ev) => seq![ev],
        }
    }
}

/// Tokenizes every raw input event of a tick, in order. Blank,
/// whitespace-only, comment-only and erroneous lines are dropped silently;
/// every other line becomes one tokenized event for the same sender.
pub fn parse_command_bufs(bufs: &Vec<CommandBufInput>) -> (r: Vec<CommandArgsInput>)
    ensures
        r.deep_view() == tokenize_all(bufs.deep_view()),
{
    let mut r: Vec<CommandArgsInput> = Vec::new();
    let mut i: usize = 0;
    proof {
        assert(bufs.deep_view().subrange(0, 0) =~= Seq::<BufModel>::empty());
        assert(r.deep_view() =~= Seq::<ArgsModel>::empty());
    }
    while i < bufs.len()
        invariant
            i <= bufs.len(),
            r.deep_view() == tokenize_all(bufs.deep_view().subrange(0, i as int)),
        decreases bufs.len() - i,
    {
        let ghost pre = bufs.deep_view().subrange(0, i as int);
        let ghost r0 = r.deep_view();
        proof {
            assert(bufs.deep_view().subrange(0, i as int + 1).drop_last() =~= pre);
            assert(bufs.deep_view().subrange(0, i as int + 1).last() == bufs[i as int]@);
        }
        match tokenize(bufs[i].buf.as_str()) {
            None => {},
            Some(mut toks) => {
                if toks.len() > 0 {
                    let name = toks.remove(0);
                    proof {
                        assert(toks.deep_view() =~= shell_words(
                            bufs[i as int]@.text,
                        ).unwrap().drop_first());
                    }
                    r.push(CommandArgsInput { sender: bufs[i].sender, name, args: toks });
                    proof {
                        assert(r.deep_view() =~= r0.push(tokenized_of(bufs[i as int]@).unwrap()));
                        assert(r.deep_view() =~= tokenize_all(
                            bufs.deep_view().subrange(0, i as int + 1),
                        ));
                    }
                }
            },
        }
        i = i + 1;
    }
    proof {
        assert(bufs.deep_view().subrange(0, bufs.len() as int) =~= bufs.deep_view());
    }
    r
}

} // verus!
