//! The `echo` command: displays text back to the sender.

use vstd::prelude::*;
use vstd::string::StringExecFns;

use crate::events::{Outcome, RespModel};
use crate::parse::{spec_value_of, ParsedArgs};
use crate::respond::CommandContext;
use crate::schema::{CommandSpec, FieldKindModel, FieldModel, FieldSpec, SpecModel};

verus! {

/// Displays text back to the sender.
#[derive(Debug, PartialEq, Eq)]
pub struct Echo {
    pub message: String,
}

/// The specification `echo` is registered under: one required positional
/// field, the message to send back.
pub open spec fn echo_spec_model() -> SpecModel {
    SpecModel {
        name: "echo"@,
        summary: "Displays text back to the sender."@,
        long_help: "Displays text back to the sender."@,
        fields: seq![
            FieldModel {
                id: "message"@,
                kind: FieldKindModel::Positional { required: true },
                help: "The message to send."@,
            },
        ],
    }
}

impl Echo {
    /// Builds the specification `echo` is registered under.
    pub fn spec() -> (r: CommandSpec)
        ensures
            r@ == echo_spec_model(),
            r@.wf(),
    {
        let mut fields: Vec<FieldSpec> = Vec::new();
        fields.push(
            FieldSpec::positional(
                String::from_str("message"),
                true,
                String::from_str("The message to send."),
            ),
        );
        let r = CommandSpec::new(
            String::from_str("echo"),
            String::from_str("Displays text back to the sender."),
            String::from_str("Displays text back to the sender."),
            fields,
        );
        proof {
            assert(r@.fields =~= echo_spec_model().fields);
            reveal_strlit("echo");
            reveal_strlit("message");
            reveal_strlit("help");
            assert(r@.wf());
        }
        r
    }

    /// The typed value of a parsed `echo` invocation, if the bindings hold
    /// a message.
    pub fn from_args(args: &ParsedArgs) -> (r: Option<Echo>)
        ensures
            match r {
                Option::Some(e) => spec_value_of(args@, "message"@) == Option::Some(e.message@),
                Option::None => spec_value_of(args@, "message"@) is None,
            },
    {
        let id = String::from_str("message");
        match args.value_of(&id) {
            Option::Some(message) => Option::Some(Echo { message }),
            Option::None => Option::None,
        }
    }
}

/// Handles one `echo` invocation: the bound message is sent back to the
/// sender as one successful response; bindings without a message produce
/// nothing.
pub fn echo(ctx: &mut CommandContext)
    ensures
        final(ctx).sender == old(ctx).sender,
        final(ctx).data == old(ctx).data,
        final(ctx).emitted() == old(ctx).emitted() + match spec_value_of(
            old(ctx).data@,
            "message"@,
        ) {
            Option::Some(m) => seq![
                RespModel {
                    target: old(ctx).sender,
                    lines: seq![m],
                    outcome: Outcome::Success,
                },
            ],
            Option::None => Seq::<RespModel>::empty(),
        },
{
    let ghost emitted0 = ctx.emitted();
    let id = String::from_str("message");
    match ctx.data.value_of(&id) {
        Option::Some(m) => {
            let ghost mv = m@;
            let mut message: Vec<String> = Vec::new();
            message.push(m);
            proof {
                assert(message.deep_view() =~= seq![mv]);
            }
            ctx.ok(message);
            proof {
                assert(ctx.emitted() =~= emitted0 + seq![
                    RespModel {
                        target: ctx.sender,
                        lines: seq![mv],
                        outcome: Outcome::Success,
                    },
                ]);
            }
        },
        Option::None => {
            proof {
                assert(ctx.emitted() =~= emitted0 + Seq::<RespModel>::empty());
            }
        },
    }
}

} // verus!
