//! A console-command dispatch engine.
//!
//! Freeform text lines submitted by any number of front ends are tokenized
//! with shell-style quoting, matched against a registry of command
//! specifications, parsed into typed argument bindings, and answered with
//! response events routed back to the sender that issued the line.

pub mod dispatch;
pub mod echo;
pub mod events;
pub mod exit;
pub mod help;
pub mod parse;
pub mod registry;
pub mod respond;
pub mod schema;
pub mod text;
pub mod tick;
pub mod tokenize;

pub use crate::dispatch::CommandDispatch;
pub use crate::echo::Echo;
pub use crate::events::{
    CommandArgsInput, CommandBufInput, CommandResponse, InvalidCommandInput, Outcome, SenderId,
};
pub use crate::exit::Exit;
pub use crate::help::Help;
pub use crate::parse::ParsedArgs;
pub use crate::registry::CommandMetaMap;
pub use crate::respond::CommandContext;
pub use crate::schema::{CommandSpec, FieldKind, FieldSpec};
pub use crate::tick::{ConsoleTick, TickPhase};

use vstd::prelude::*;

verus! {

/// The prompt a line-editing front end shows by default.
pub const DEFAULT_PROMPT: &'static str = "> ";

} // verus!
