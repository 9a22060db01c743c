//! The event types that flow through one tick of the dispatch pipeline.

use vstd::prelude::*;

verus! {

/// Opaque, copyable handle identifying where a line of text originated and
/// where the responses it provokes must be delivered.
#[derive(Clone, Copy, PartialEq, Eq, Structural, Debug, Hash)]
pub struct SenderId(pub u64);

/// Classification attached to every response event.
#[derive(Clone, Copy, PartialEq, Eq, Structural, Debug)]
pub enum Outcome {
    Success,
    Failure,
}

/// A raw line of text submitted by a front end, before tokenization.
#[derive(Debug)]
pub struct CommandBufInput {
    pub sender: SenderId,
    pub buf: String,
}

/// Mathematical model of a raw input event.
pub ghost struct BufModel {
    pub sender: SenderId,
    pub text: Seq<char>,
}

impl View for CommandBufInput {
    type V = BufModel;

    open spec fn view(&self) -> BufModel {
        BufModel { sender: self.sender, text: self.buf@ }
    }
}

impl DeepView for CommandBufInput {
    type V = BufModel;

    open spec fn deep_view(&self) -> BufModel {
        self.view()
    }
}

/// A tokenized command line: the leading token names the command, the
/// remaining tokens are its arguments.
#[derive(Debug)]
pub struct CommandArgsInput {
    pub sender: SenderId,
    pub name: String,
    pub args: Vec<String>,
}

/// Mathematical model of a tokenized input event.
pub ghost struct ArgsModel {
    pub sender: SenderId,
    pub name: Seq<char>,
    pub args: Seq<Seq<char>>,
}

impl View for CommandArgsInput {
    type V = ArgsModel;

    open spec fn view(&self) -> ArgsModel {
        ArgsModel { sender: self.sender, name: self.name@, args: self.args.deep_view() }
    }
}

impl DeepView for CommandArgsInput {
    type V = ArgsModel;

    open spec fn deep_view(&self) -> ArgsModel {
        self.view()
    }
}

/// A tokenized input whose name matched no registered command.
#[derive(Debug)]
pub struct InvalidCommandInput {
    pub target: SenderId,
    pub name: String,
}

/// Mathematical model of an invalid-command event.
pub ghost struct InvalidModel {
    pub target: SenderId,
    pub name: Seq<char>,
}

impl View for InvalidCommandInput {
    type V = InvalidModel;

    open spec fn view(&self) -> InvalidModel {
        InvalidModel { target: self.target, name: self.name@ }
    }
}

impl DeepView for InvalidCommandInput {
    type V = InvalidModel;

    open spec fn deep_view(&self) -> InvalidModel {
        self.view()
    }
}

/// A response event: one or more display lines addressed to a sender,
/// classified as a success or an error.
#[derive(Debug)]
pub struct CommandResponse {
    pub target: SenderId,
    pub message: Vec<String>,
    pub outcome: Outcome,
}

/// Mathematical model of a response event.
pub ghost struct RespModel {
    pub target: SenderId,
    pub lines: Seq<Seq<char>>,
    pub outcome: Outcome,
}

impl View for CommandResponse {
    type V = RespModel;

    open spec fn view(&self) -> RespModel {
        RespModel {
            target: self.target,
            lines: self.message.deep_view(),
            outcome: self.outcome,
        }
    }
}

impl DeepView for CommandResponse {
    type V = RespModel;

    open spec fn deep_view(&self) -> RespModel {
        self.view()
    }
}

impl CommandResponse {
    /// A successful response carrying the given display lines.
    pub fn ok(target: SenderId, message: Vec<String>) -> (r: Self)
        ensures
            r@ == (RespModel { target, lines: message.deep_view(), outcome: Outcome::Success }),
    {
        CommandResponse { target, message, outcome: Outcome::Success }
    }

    /// An error response carrying the given display lines.
    pub fn err(target: SenderId, message: Vec<String>) -> (r: Self)
        ensures
            r@ == (RespModel { target, lines: message.deep_view(), outcome: Outcome::Failure }),
    {
        CommandResponse { target, message, outcome: Outcome::Failure }
    }
}

/// Clones every string in a vector, preserving the sequence exactly.
pub fn clone_strings(v: &Vec<String>) -> (r: Vec<String>)
    ensures
        r@ == v@,
{
    let mut r: Vec<String> = Vec::new();
    let mut i: usize = 0;
    while i < v.len()
        invariant
            i <= v.len(),
            r@ == v@.subrange(0, i as int),
        decreases v.len() - i,
    {
        r.push(v[i].clone());
        i = i + 1;
        assert(r@ =~= v@.subrange(0, i as int));
    }
    assert(r@ =~= v@);
    r
}

impl Clone for CommandResponse {
    fn clone(&self) -> (r: Self)
        ensures
            r@ == self@,
    {
        CommandResponse {
            target: self.target,
            message: clone_strings(&self.message),
            outcome: self.outcome,
        }
    }
}

} // verus!
