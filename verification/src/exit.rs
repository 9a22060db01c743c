//! The `exit` command: asks the host application to shut down.

use vstd::prelude::*;
use vstd::string::StringExecFns;

use crate::dispatch::CommandDispatch;
use crate::schema::{CommandSpec, FieldSpec, SpecModel};

verus! {

/// Immediately exits the application.
#[derive(Debug, PartialEq, Eq)]
pub struct Exit;

/// The specification `exit` is registered under: no fields.
pub open spec fn exit_spec_model() -> SpecModel {
    SpecModel {
        name: "exit"@,
        summary: "Immediately exits the application."@,
        long_help: "Immediately exits the application."@,
        fields: Seq::empty(),
    }
}

impl Exit {
    /// Builds the specification `exit` is registered under.
    pub fn spec() -> (r: CommandSpec)
        ensures
            r@ == exit_spec_model(),
            r@.wf(),
    {
        let fields: Vec<FieldSpec> = Vec::new();
        let r = CommandSpec::new(
            String::from_str("exit"),
            String::from_str("Immediately exits the application."),
            String::from_str("Immediately exits the application."),
            fields,
        );
        proof {
            assert(r@.fields =~= exit_spec_model().fields);
            reveal_strlit("exit");
            assert(r@.wf());
        }
        r
    }
}

/// Handles the `exit` invocations of one tick: exiting is requested
/// exactly when at least one `exit` command arrived. Shutting the host
/// down is the caller's part; this only decides it.
pub fn exit(queue: &Vec<CommandDispatch>) -> (r: bool)
    ensures
        r == (queue@.len() > 0),
{
    queue.len() > 0
}

} // verus!
