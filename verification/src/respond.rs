//! Emitting and routing responses: the write access handler code gets
//! during the process stage, and the per-sender filter front ends use to
//! receive their responses.

use vstd::prelude::*;

use crate::events::{CommandResponse, Outcome, RespModel, SenderId};
use crate::parse::ParsedArgs;

verus! {

/// What handler code sees for one typed command event: the sender the
/// command came from, its parsed value, and write access to emit responses
/// for that same sender.
#[derive(Debug)]
pub struct CommandContext {
    pub sender: SenderId,
    pub data: ParsedArgs,
    pub responses: Vec<CommandResponse>,
}

impl CommandContext {
    /// The responses emitted so far, in emission order.
    pub open spec fn emitted(&self) -> Seq<RespModel> {
        self.responses.deep_view()
    }

    /// A context for one typed command event, with no responses yet.
    pub fn new(sender: SenderId, data: ParsedArgs) -> (r: Self)
        ensures
            r.sender == sender,
            r.data == data,
            r.emitted() == Seq::<RespModel>::empty(),
    {
        let r = CommandContext { sender, data, responses: Vec::new() };
        proof {
            assert(r.emitted() =~= Seq::<RespModel>::empty());
        }
        r
    }

    /// Emits a response with the given outcome to this context's sender.
    pub fn respond(&mut self, outcome: Outcome, message: Vec<String>)
        ensures
            final(self).sender == old(self).sender,
            final(self).data == old(self).data,
            final(self).emitted() == old(self).emitted().push(
                RespModel {
                    target: old(self).sender,
                    lines: message.deep_view(),
                    outcome,
                },
            ),
    {
        let ghost prev = self.emitted();
        let target = self.sender;
        self.responses.push(CommandResponse { target, message, outcome });
        proof {
            assert(self.emitted() =~= prev.push(self.responses@.last()@));
        }
    }

    /// Emits a successful response to this context's sender.
    pub fn ok(&mut self, message: Vec<String>)
        ensures
            final(self).sender == old(self).sender,
            final(self).data == old(self).data,
            final(self).emitted() == old(self).emitted().push(
                RespModel {
                    target: old(self).sender,
                    lines: message.deep_view(),
                    outcome: Outcome::Success,
                },
            ),
    {
        self.respond(Outcome::Success, message)
    }

    /// Emits an error response to this context's sender.
    pub fn err(&mut self, message: Vec<String>)
        ensures
            final(self).sender == old(self).sender,
            final(self).data == old(self).data,
            final(self).emitted() == old(self).emitted().push(
                RespModel {
                    target: old(self).sender,
                    lines: message.deep_view(),
                    outcome: Outcome::Failure,
                },
            ),
    {
        self.respond(Outcome::Failure, message)
    }

    /// Hands the emitted responses over, in emission order.
    pub fn into_responses(self) -> (r: Vec<CommandResponse>)
        ensures
            r.deep_view() == self.emitted(),
    {
        self.responses
    }

}

/// The responses of a tick that are addressed to `target`, in emission
/// order.
pub open spec fn spec_responses_for(resps: Seq<RespModel>, target: SenderId) -> Seq<RespModel>
    decreases resps.len(),
{
    if resps.len() == 0 {
        Seq::empty()
    } else {
        spec_responses_for(resps.drop_last(), target) + if resps.last().target == target {
            seq![resps.last()]
        } else {
            Seq::<RespModel>::empty()
        }
    }
}

/// Delivers to one front end: the responses addressed to `target`, in
/// emission order. A target nothing was addressed to receives nothing.
pub fn responses_for(resps: &Vec<CommandResponse>, target: SenderId) -> (r: Vec<CommandResponse>)
    ensures
        r.deep_view() == spec_responses_for(resps.deep_view(), target),
{
    let mut r: Vec<CommandResponse> = Vec::new();
    let mut i: usize = 0;
    proof {
        assert(resps.deep_view().subrange(0, 0) =~= Seq::<RespModel>::empty());
        assert(r.deep_view() =~= Seq::<RespModel>::empty());
    }
    while i < resps.len()
        invariant
            i <= resps.len(),
            r.deep_view() == spec_responses_for(resps.deep_view().subrange(0, i as int), target),
        decreases resps.len() - i,
    {
        let ghost pre = resps.deep_view().subrange(0, i as int);
        let ghost r0 = r.deep_view();
        proof {
            assert(resps.deep_view().subrange(0, i as int + 1).drop_last() =~= pre);
            assert(resps.deep_view().subrange(0, i as int + 1).last() == resps[i as int]@);
        }
        if resps[i].target == target {
            r.push(resps[i].clone());
            proof {
                assert(r.deep_view() =~= r0.push(resps[i as int]@));
            }
        }
        i = i + 1;
    }
    proof {
        assert(resps.deep_view().subrange(0, resps.len() as int) =~= resps.deep_view());
    }
    r
}

/// Delivery neither invents nor loses anything: every delivered response
/// stands in the tick's response sequence addressed to the target, and in
/// the same relative order.
pub proof fn lemma_responses_for_sound(resps: Seq<RespModel>, target: SenderId)
    ensures
        forall|k: int|
            0 <= k < spec_responses_for(resps, target).len() ==> (#[trigger] spec_responses_for(
                resps,
                target,
            )[k]).target == target,
    decreases resps.len(),
{
    if resps.len() > 0 {
        lemma_responses_for_sound(resps.drop_last(), target);
    }
}

} // verus!
