//! The `help` command: usage information on registered commands, built
//! from the registry's read contract alone.

use vstd::prelude::*;
use vstd::string::StrSliceExecFns;
use vstd::string::StringExecFns;

use crate::dispatch::no_such_command_lines;
use crate::events::{Outcome, RespModel, SenderId};
use crate::parse::{spec_value_of, ParsedArgs};
use crate::registry::{reg_lookup, CommandMetaMap};
use crate::respond::CommandContext;
use crate::schema::{CommandSpec, FieldKindModel, FieldModel, FieldSpec, SpecModel};
use crate::text::{spaces, spec_spaces, spec_split_lines, split_lines};

verus! {

/// Provides usage information on registered commands.
#[derive(Debug, PartialEq, Eq)]
pub struct Help {
    pub query: Option<String>,
}

/// The specification `help` is registered under: one optional positional
/// field, the command to describe.
pub open spec fn help_spec_model() -> SpecModel {
    SpecModel {
        name: "help"@,
        summary: "Provides usage information on registered commands."@,
        long_help: "Provides usage information on registered commands."@,
        fields: seq![
            FieldModel {
                id: "query"@,
                kind: FieldKindModel::Positional { required: false },
                help: "The command to view help information for."@,
            },
        ],
    }
}

impl Help {
    /// Builds the specification `help` is registered under.
    pub fn spec() -> (r: CommandSpec)
        ensures
            r@ == help_spec_model(),
            r@.wf(),
    {
        let mut fields: Vec<FieldSpec> = Vec::new();
        fields.push(
            FieldSpec::positional(
                String::from_str("query"),
                false,
                String::from_str("The command to view help information for."),
            ),
        );
        let r = CommandSpec::new(
            String::from_str("help"),
            String::from_str("Provides usage information on registered commands."),
            String::from_str("Provides usage information on registered commands."),
            fields,
        );
        proof {
            assert(r@.fields =~= help_spec_model().fields);
            reveal_strlit("help");
            reveal_strlit("query");
            assert(r@.wf());
        }
        r
    }

    /// The typed value of a parsed `help` invocation.
    pub fn from_args(args: &ParsedArgs) -> (r: Help)
        ensures
            match r.query {
                Option::Some(q) => spec_value_of(args@, "query"@) == Option::Some(q@),
                Option::None => spec_value_of(args@, "query"@) is None,
            },
    {
        let id = String::from_str("query");
        Help { query: args.value_of(&id) }
    }
}

/// The length of the longest registered name.
pub open spec fn longest_name_len(entries: Seq<SpecModel>) -> nat
    decreases entries.len(),
{
    if entries.len() == 0 {
        0
    } else {
        let rest = longest_name_len(entries.drop_last());
        if entries.last().name.len() > rest {
            entries.last().name.len()
        } else {
            rest
        }
    }
}

/// No registered name is longer than the longest.
pub proof fn lemma_longest_bound(entries: Seq<SpecModel>, i: int)
    requires
        0 <= i < entries.len(),
    ensures
        entries[i].name.len() <= longest_name_len(entries),
    decreases entries.len(),
{
    if i < entries.len() - 1 {
        lemma_longest_bound(entries.drop_last(), i);
        assert(entries.drop_last()[i] == entries[i]);
    }
}

/// One line of the command listing: the name, padded to the longest
/// name's width, then the summary if there is one.
pub open spec fn listing_line(name: Seq<char>, summary: Seq<char>, width: nat) -> Seq<char> {
    let padded = "  "@ + name + spec_spaces((width - name.len()) as nat);
    if summary.len() == 0 {
        padded
    } else {
        padded + " - "@ + summary
    }
}

/// The command listing: a heading, then one line per registered command,
/// in registry order.
pub open spec fn help_listing(entries: Seq<SpecModel>) -> Seq<Seq<char>> {
    seq!["Available commands:"@] + Seq::new(
        entries.len(),
        |i: int| listing_line(entries[i].name, entries[i].summary, longest_name_len(entries)),
    )
}

/// The one response a `help` invocation produces: without a query the
/// command listing; with a registered query the command's long help, one
/// display line per line; with an unregistered query a "no such command"
/// error.
pub open spec fn help_response(
    entries: Seq<SpecModel>,
    query: Option<Seq<char>>,
    sender: SenderId,
) -> RespModel {
    match query {
        Option::None => RespModel {
            target: sender,
            lines: help_listing(entries),
            outcome: Outcome::Success,
        },
        Option::Some(q) => match reg_lookup(entries, q) {
            Option::Some(s) => RespModel {
                target: sender,
                lines: spec_split_lines(s.long_help),
                outcome: Outcome::Success,
            },
            Option::None => RespModel {
                target: sender,
                lines: no_such_command_lines(q),
                outcome: Outcome::Failure,
            },
        },
    }
}

/// Handles one `help` invocation: emits exactly one response to the
/// sender, as `help_response` describes, reading the registry only.
pub fn help(ctx: &mut CommandContext, reg: &CommandMetaMap)
    ensures
        final(ctx).sender == old(ctx).sender,
        final(ctx).data == old(ctx).data,
        final(ctx).emitted() == old(ctx).emitted().push(
            help_response(reg@, spec_value_of(old(ctx).data@, "query"@), old(ctx).sender),
        ),
{
    let id = String::from_str("query");
    match ctx.data.value_of(&id) {
        Option::Some(query) => {
            match reg.lookup(&query) {
                Option::Some(s) => {
                    let lines = split_lines(s.long_help.as_str());
                    ctx.ok(lines);
                },
                Option::None => {
                    let line = String::from_str("no such command: ").concat(query.as_str());
                    let mut message: Vec<String> = Vec::new();
                    message.push(line);
                    proof {
                        assert(message.deep_view() =~= no_such_command_lines(query@));
                    }
                    ctx.err(message);
                },
            }
        },
        Option::None => {
            let lines = render_listing(reg);
            ctx.ok(lines);
        },
    }
}

/// Renders the command listing of the registry, one string per display
/// line.
pub fn render_listing(reg: &CommandMetaMap) -> (r: Vec<String>)
    ensures
        r.deep_view() == help_listing(reg@),
{
    let items = reg.list_commands();
    let ghost entries = reg@;
    let mut longest: usize = 0;
    let mut i: usize = 0;
    proof {
        assert(entries.subrange(0, 0) =~= Seq::<SpecModel>::empty());
        assert(items.deep_view().len() == items@.len());
        assert(items@.len() == entries.len());
    }
    while i < items.len()
        invariant
            i <= items.len(),
            items.deep_view() =~= Seq::new(
                entries.len(),
                |k: int| (entries[k].name, entries[k].summary),
            ),
            items@.len() == entries.len(),
            longest as nat == longest_name_len(entries.subrange(0, i as int)),
        decreases items.len() - i,
    {
        proof {
            assert(entries.subrange(0, i as int + 1).drop_last() =~= entries.subrange(0, i as int));
            assert(entries.subrange(0, i as int + 1).last() == entries[i as int]);
            assert(items.deep_view()[i as int].0 == entries[i as int].name);
        }
        let l = items[i].0.as_str().unicode_len();
        if l > longest {
            longest = l;
        }
        i = i + 1;
    }
    proof {
        assert(entries.subrange(0, entries.len() as int) =~= entries);
    }
    let mut lines: Vec<String> = Vec::new();
    lines.push(String::from_str("Available commands:"));
    proof {
        assert(lines.deep_view() =~= help_listing(entries).subrange(0, 1));
    }
    let mut i: usize = 0;
    while i < items.len()
        invariant
            i <= items.len(),
            items.deep_view() =~= Seq::new(
                entries.len(),
                |k: int| (entries[k].name, entries[k].summary),
            ),
            items@.len() == entries.len(),
            longest as nat == longest_name_len(entries),
            lines.deep_view() =~= help_listing(entries).subrange(0, i as int + 1),
        decreases items.len() - i,
    {
        proof {
            assert(items.deep_view()[i as int].0 == entries[i as int].name);
            assert(items.deep_view()[i as int].1 == entries[i as int].summary);
            lemma_longest_bound(entries, i as int);
        }
        let name_len = items[i].0.as_str().unicode_len();
        let pad = spaces(longest - name_len);
        let mut line = String::from_str("  ").concat(items[i].0.as_str()).concat(pad.as_str());
        if !items[i].1.as_str().is_empty() {
            line = line.concat(" - ").concat(items[i].1.as_str());
        }
        proof {
            assert(line@ == listing_line(
                entries[i as int].name,
                entries[i as int].summary,
                longest_name_len(entries),
            ));
        }
        let ghost prev = lines.deep_view();
        lines.push(line);
        i = i + 1;
        proof {
            assert(lines.deep_view() =~= prev.push(
                help_listing(entries)[i as int],
            ));
            assert(lines.deep_view() =~= help_listing(entries).subrange(0, i as int + 1));
        }
    }
    proof {
        assert(help_listing(entries).subrange(0, items@.len() as int + 1) =~= help_listing(
            entries,
        ));
    }
    lines
}

} // verus!
