//! The handshake lifecycle shared by both roles.
//!
//! The mechanism does the negotiating; a `Session` keeps track of how far
//! it got. Each handshake round has two halves. `plan_step` decides, from
//! the role, the phase and whether a token arrived, whether the mechanism
//! is to be called at all. `apply_reply` takes what the mechanism answered and
//! moves the phase. Once established a session stays established, and only
//! then do the protection operations pass `guard`.

use crate::error::{Cause, Error, Operation};
use vstd::prelude::*;

verus! {

/// The side of the handshake a context plays.
#[derive(Clone, Copy, Debug, PartialEq, Eq, Structural)]
pub enum Role {
    Initiator,
    Acceptor,
}

/// How far the handshake has come.
#[derive(Clone, Copy, Debug, PartialEq, Eq, Structural)]
pub enum Phase {
    /// No round has been answered yet.
    Created,
    /// The mechanism asked for another round.
    Negotiating,
    /// The handshake completed; messages can be protected.
    Established,
    /// The mechanism rejected a token; the context is to be discarded.
    Failed(Cause),
}

/// What a caller does for one handshake round.
#[derive(Clone, Copy, Debug, PartialEq, Eq, Structural)]
pub enum StepAction {
    /// Hand the token, if any, to the mechanism and report its reply.
    Feed,
    /// Nothing: the context is established and has nothing more to send.
    Finished,
}

/// What the mechanism answered to one handshake round.
#[derive(Clone, Debug, PartialEq, Eq)]
pub enum MechReply {
    /// Another round is needed; the token goes to the peer.
    Continue(Vec<u8>),
    /// The context is established; the token, if there is one, still goes
    /// to the peer.
    Complete(Option<Vec<u8>>),
    /// The token was rejected, with the mechanism's major and minor status.
    Rejected { major: u32, minor: u32 },
}

/// The reply of a mechanism that accepted a round: it produced `token` to
/// send on, or nothing, and does or does not hold an established context
/// now. A mechanism with nothing to send has finished.
pub open spec fn accepted_reply(token: Option<Vec<u8>>, established: bool) -> MechReply {
    match token {
        Some(t) => if established {
            MechReply::Complete(Some(t))
        } else {
            MechReply::Continue(t)
        },
        None => MechReply::Complete(None),
    }
}

impl MechReply {
    /// The reply of a mechanism that accepted a round, from the token it
    /// produced and whether its context is established.
    pub fn accepted(token: Option<Vec<u8>>, established: bool) -> (reply: MechReply)
        ensures
            reply == accepted_reply(token, established),
    {
        match token {
            Some(t) => if established {
                MechReply::Complete(Some(t))
            } else {
                MechReply::Continue(t)
            },
            None => MechReply::Complete(None),
        }
    }
}

/// The handshake state of one context.
#[derive(Clone, Copy, Debug, PartialEq, Eq)]
pub struct Session {
    phase: Phase,
}

/// The decision for a round, before the mechanism is called. An acceptor
/// cannot start a round without a token. A failed context repeats its
/// failure, and an established one has nothing left to do.
pub open spec fn step_plan(role: Role, phase: Phase, has_token: bool) -> Result<StepAction, Error> {
    if role == Role::Acceptor && !has_token {
        Err(Error { operation: Operation::Step, cause: Cause::DefectiveToken })
    } else {
        match phase {
            Phase::Failed(cause) => Err(Error { operation: Operation::Step, cause }),
            Phase::Established => Ok(StepAction::Finished),
            _ => Ok(StepAction::Feed),
        }
    }
}

/// The phase that follows `phase` when the mechanism answers `reply`.
pub open spec fn next_phase(phase: Phase, reply: MechReply) -> Phase {
    match phase {
        Phase::Established => phase,
        Phase::Failed(_) => phase,
        _ => match reply {
            MechReply::Continue(_) => Phase::Negotiating,
            MechReply::Complete(_) => Phase::Established,
            MechReply::Rejected { major, minor } => Phase::Failed(Cause::Mechanism { major, minor }),
        },
    }
}

/// What a round returns to the caller when the mechanism answers `reply`
/// in `phase`: the token to send to the peer, if any, or the failure.
pub open spec fn step_output(phase: Phase, reply: MechReply) -> Result<Option<Seq<u8>>, Error> {
    match phase {
        Phase::Established => Ok(None),
        Phase::Failed(cause) => Err(Error { operation: Operation::Step, cause }),
        _ => match reply {
            MechReply::Continue(token) => Ok(Some(token@)),
            MechReply::Complete(Some(token)) => Ok(Some(token@)),
            MechReply::Complete(None) => Ok(None),
            MechReply::Rejected { major, minor } => Err(
                Error { operation: Operation::Step, cause: Cause::Mechanism { major, minor } },
            ),
        },
    }
}

/// A round's result with its token, if any, as a sequence of bytes.
pub open spec fn output_view(out: Result<Option<Vec<u8>>, Error>) -> Result<Option<Seq<u8>>, Error> {
    match out {
        Ok(Some(token)) => Ok(Some(token@)),
        Ok(None) => Ok(None),
        Err(e) => Err(e),
    }
}

/// Whether `operation` may go ahead in `phase`: only on an established
/// context.
pub open spec fn guard_result(phase: Phase, operation: Operation) -> Result<(), Error> {
    if phase == Phase::Established {
        Ok(())
    } else {
        Err(Error { operation, cause: Cause::NotEstablished })
    }
}

/// The phase reached from `phase` after the mechanism's `replies`, in order.
pub open spec fn phase_after(phase: Phase, replies: Seq<MechReply>) -> Phase
    decreases replies.len(),
{
    if replies.len() == 0 {
        phase
    } else {
        phase_after(next_phase(phase, replies.first()), replies.drop_first())
    }
}

impl Session {
    pub closed spec fn phase(self) -> Phase {
        self.phase
    }

    /// A session in which no round has been answered.
    pub fn new() -> (s: Session)
        ensures
            s.phase() == Phase::Created,
    {
        Session { phase: Phase::Created }
    }

    pub fn current_phase(&self) -> (p: Phase)
        ensures
            p == self.phase(),
    {
        self.phase
    }

    pub fn is_established(&self) -> (b: bool)
        ensures
            b == (self.phase() == Phase::Established),
    {
        match self.phase {
            Phase::Established => true,
            _ => false,
        }
    }

    /// First half of a round, for a context playing `role`: what to do
    /// with the token that arrived, or with its absence.
    pub fn plan_step(&self, role: Role, has_token: bool) -> (plan: Result<StepAction, Error>)
        ensures
            plan == step_plan(role, self.phase(), has_token),
    {
        let acceptor = match role {
            Role::Acceptor => true,
            Role::Initiator => false,
        };
        if acceptor && !has_token {
            Err(Error { operation: Operation::Step, cause: Cause::DefectiveToken })
        } else {
            match self.phase {
                Phase::Failed(cause) => Err(Error { operation: Operation::Step, cause }),
                Phase::Established => Ok(StepAction::Finished),
                _ => Ok(StepAction::Feed),
            }
        }
    }

    /// Second half of a round: records the mechanism's reply and returns
    /// the token to send to the peer, if any.
    pub fn apply_reply(&mut self, reply: MechReply) -> (out: Result<Option<Vec<u8>>, Error>)
        ensures
            final(self).phase() == next_phase(old(self).phase(), reply),
            output_view(out) == step_output(old(self).phase(), reply),
    {
        match self.phase {
            Phase::Established => Ok(None),
            Phase::Failed(cause) => Err(Error { operation: Operation::Step, cause }),
            _ => match reply {
                MechReply::Continue(token) => {
                    self.phase = Phase::Negotiating;
                    Ok(Some(token))
                },
                MechReply::Complete(token) => {
                    self.phase = Phase::Established;
                    Ok(token)
                },
                MechReply::Rejected { major, minor } => {
                    let cause = Cause::Mechanism { major, minor };
                    self.phase = Phase::Failed(cause);
                    Err(Error { operation: Operation::Step, cause })
                },
            },
        }
    }

    /// Lets `operation` through on an established context and fails it on
    /// any other.
    pub fn guard(&self, operation: Operation) -> (r: Result<(), Error>)
        ensures
            r == guard_result(self.phase(), operation),
    {
        match self.phase {
            Phase::Established => Ok(()),
            _ => Err(Error { operation, cause: Cause::NotEstablished }),
        }
    }
}

/// A round without a token never succeeds on an acceptor, whatever its
/// phase: it fails as a handshake error with a defective token. And no
/// round reports that nothing is left to do unless the context is
/// established.
pub proof fn lemma_acceptor_needs_token(role: Role, phase: Phase, has_token: bool)
    ensures
        step_plan(Role::Acceptor, phase, false) == Err::<StepAction, Error>(
            Error { operation: Operation::Step, cause: Cause::DefectiveToken },
        ),
        step_plan(role, phase, has_token) == Ok::<StepAction, Error>(StepAction::Finished)
            ==> phase == Phase::Established,
{
}

/// Before the handshake completes every guarded operation fails, and with
/// an error of that operation's family; once it has completed none does.
pub proof fn lemma_guard_before_establishment(phase: Phase, operation: Operation)
    ensures
        guard_result(phase, operation) is Ok <==> phase == Phase::Established,
        phase != Phase::Established ==> guard_result(phase, operation) == Err::<(), Error>(
            Error { operation, cause: Cause::NotEstablished },
        ),
{
}

/// An established context stays established whatever replies follow, and
/// a round on it has nothing more to send.
pub proof fn lemma_established_is_stable(role: Role, replies: Seq<MechReply>)
    ensures
        phase_after(Phase::Established, replies) == Phase::Established,
        step_plan(role, Phase::Established, true) == Ok::<StepAction, Error>(StepAction::Finished),
    decreases replies.len(),
{
    if replies.len() > 0 {
        lemma_established_is_stable(role, replies.drop_first());
    }
}

/// A failed context stays failed, with the cause it first failed with.
pub proof fn lemma_failed_is_stable(cause: Cause, replies: Seq<MechReply>)
    ensures
        phase_after(Phase::Failed(cause), replies) == Phase::Failed(cause),
    decreases replies.len(),
{
    if replies.len() > 0 {
        lemma_failed_is_stable(cause, replies.drop_first());
    }
}

/// A handshake in which the mechanism asks for further rounds and then
/// completes leaves the context established, however many rounds it took.
pub proof fn lemma_handshake_completes(phase: Phase, replies: Seq<MechReply>)
    requires
        phase == Phase::Created || phase == Phase::Negotiating,
        replies.len() > 0,
        forall|i: int| 0 <= i < replies.len() - 1 ==> (#[trigger] replies[i]) is Continue,
        replies.last() is Complete,
    ensures
        phase_after(phase, replies) == Phase::Established,
    decreases replies.len(),
{
    if replies.len() == 1 {
        assert(replies.first() == replies.last());
        assert(phase_after(Phase::Established, replies.drop_first()) == Phase::Established);
    } else {
        let rest = replies.drop_first();
        assert(replies[0] is Continue);
        assert(rest.last() == replies.last());
        assert forall|i: int| 0 <= i < rest.len() - 1 implies (#[trigger] rest[i]) is Continue by {
            assert(rest[i] == replies[i + 1]);
        }
        lemma_handshake_completes(Phase::Negotiating, rest);
    }
}

} // verus!
