//! The two kinds of security context.
//!
//! A `ClientCtx` initiates a handshake towards a target principal; a
//! `ServerCtx` accepts one. Both keep a [`Session`] and offer the same
//! handshake and protection checks. Only the acceptor can be asked for the
//! peer's identity.

use crate::error::{Cause, Error, Operation};
use crate::session::{
    guard_result, next_phase, output_view, step_output, step_plan, MechReply, Phase, Role, Session,
    StepAction,
};
use vstd::prelude::*;

verus! {

/// A principal name as a caller may or may not have given it.
pub open spec fn name_view(name: Option<&str>) -> Option<Seq<char>> {
    match name {
        Some(n) => Some(n@),
        None => None,
    }
}

/// The initiating side of a session.
#[derive(Clone, Debug)]
pub struct ClientCtx {
    principal: Option<String>,
    target: String,
    session: Session,
}

/// The accepting side of a session.
#[derive(Clone, Debug)]
pub struct ServerCtx {
    principal: Option<String>,
    session: Session,
}

impl ClientCtx {
    /// The local principal to initiate as, if one was chosen.
    pub closed spec fn principal(self) -> Option<Seq<char>> {
        match self.principal {
            Some(p) => Some(p@),
            None => None,
        }
    }

    /// The principal of the peer to reach.
    pub closed spec fn target(self) -> Seq<char> {
        self.target@
    }

    pub closed spec fn session(self) -> Session {
        self.session
    }

    /// A context that will initiate towards `target_principal`, as
    /// `principal` or, without one, as the default identity. No handshake
    /// round has taken place.
    pub fn new(principal: Option<&str>, target_principal: &str) -> (ctx: ClientCtx)
        ensures
            ctx.principal() == name_view(principal),
            ctx.target() == target_principal@,
            ctx.session().phase() == Phase::Created,
    {
        let principal = match principal {
            Some(p) => Some(p.to_owned()),
            None => None,
        };
        ClientCtx {
            principal,
            target: target_principal.to_owned(),
            session: Session::new(),
        }
    }

    pub fn local_principal(&self) -> (name: Option<&str>)
        ensures
            name_view(name) == self.principal(),
    {
        match &self.principal {
            Some(p) => Some(p.as_str()),
            None => None,
        }
    }

    pub fn target_principal(&self) -> (name: &str)
        ensures
            name@ == self.target(),
    {
        self.target.as_str()
    }

    pub fn phase(&self) -> (p: Phase)
        ensures
            p == self.session().phase(),
    {
        self.session.current_phase()
    }

    pub fn is_established(&self) -> (b: bool)
        ensures
            b == (self.session().phase() == Phase::Established),
    {
        self.session.is_established()
    }

    /// First half of a handshake round. The initiator may start without a
    /// token: its first round produces the opening token.
    pub fn step(&self, token: Option<&[u8]>) -> (plan: Result<StepAction, Error>)
        ensures
            plan == step_plan(Role::Initiator, self.session().phase(), token is Some),
    {
        self.session.plan_step(Role::Initiator, token.is_some())
    }

    /// Second half of a handshake round: records what the mechanism
    /// answered and returns the token to send to the acceptor, if any.
    pub fn step_reply(&mut self, reply: MechReply) -> (out: Result<Option<Vec<u8>>, Error>)
        ensures
            final(self).principal() == old(self).principal(),
            final(self).target() == old(self).target(),
            final(self).session().phase() == next_phase(old(self).session().phase(), reply),
            output_view(out) == step_output(old(self).session().phase(), reply),
    {
        self.session.apply_reply(reply)
    }

    /// Whether a message may be wrapped now.
    pub fn begin_wrap(&self) -> (r: Result<(), Error>)
        ensures
            r == guard_result(self.session().phase(), Operation::Wrap),
    {
        self.session.guard(Operation::Wrap)
    }

    /// Whether a message may be unwrapped now.
    pub fn begin_unwrap(&self) -> (r: Result<(), Error>)
        ensures
            r == guard_result(self.session().phase(), Operation::Unwrap),
    {
        self.session.guard(Operation::Unwrap)
    }

    /// Whether the remaining lifetime may be asked for now.
    pub fn begin_ttl(&self) -> (r: Result<(), Error>)
        ensures
            r == guard_result(self.session().phase(), Operation::TimeToLive),
    {
        self.session.guard(Operation::TimeToLive)
    }
}

impl ServerCtx {
    /// The local principal to accept as, if one was chosen.
    pub closed spec fn principal(self) -> Option<Seq<char>> {
        match self.principal {
            Some(p) => Some(p@),
            None => None,
        }
    }

    pub closed spec fn session(self) -> Session {
        self.session
    }

    /// A context that will accept as `principal` or, without one, as the
    /// default identity. No handshake round has taken place.
    pub fn new(principal: Option<&str>) -> (ctx: ServerCtx)
        ensures
            ctx.principal() == name_view(principal),
            ctx.session().phase() == Phase::Created,
    {
        let principal = match principal {
            Some(p) => Some(p.to_owned()),
            None => None,
        };
        ServerCtx { principal, session: Session::new() }
    }

    pub fn local_principal(&self) -> (name: Option<&str>)
        ensures
            name_view(name) == self.principal(),
    {
        match &self.principal {
            Some(p) => Some(p.as_str()),
            None => None,
        }
    }

    pub fn phase(&self) -> (p: Phase)
        ensures
            p == self.session().phase(),
    {
        self.session.current_phase()
    }

    pub fn is_established(&self) -> (b: bool)
        ensures
            b == (self.session().phase() == Phase::Established),
    {
        self.session.is_established()
    }

    /// First half of a handshake round. An acceptor answers the initiator,
    /// so a round without a token fails with a defective-token error.
    pub fn step(&self, token: Option<&[u8]>) -> (plan: Result<StepAction, Error>)
        ensures
            plan == step_plan(Role::Acceptor, self.session().phase(), token is Some),
            token is None ==> plan == Err::<StepAction, Error>(
                Error { operation: Operation::Step, cause: Cause::DefectiveToken },
            ),
    {
        self.session.plan_step(Role::Acceptor, token.is_some())
    }

    /// Second half of a handshake round: records what the mechanism
    /// answered and returns the token to send to the initiator, if any.
    pub fn step_reply(&mut self, reply: MechReply) -> (out: Result<Option<Vec<u8>>, Error>)
        ensures
            final(self).principal() == old(self).principal(),
            final(self).session().phase() == next_phase(old(self).session().phase(), reply),
            output_view(out) == step_output(old(self).session().phase(), reply),
    {
        self.session.apply_reply(reply)
    }

    /// Whether a message may be wrapped now.
    pub fn begin_wrap(&self) -> (r: Result<(), Error>)
        ensures
            r == guard_result(self.session().phase(), Operation::Wrap),
    {
        self.session.guard(Operation::Wrap)
    }

    /// Whether a message may be unwrapped now.
    pub fn begin_unwrap(&self) -> (r: Result<(), Error>)
        ensures
            r == guard_result(self.session().phase(), Operation::Unwrap),
    {
        self.session.guard(Operation::Unwrap)
    }

    /// Whether the remaining lifetime may be asked for now.
    pub fn begin_ttl(&self) -> (r: Result<(), Error>)
        ensures
            r == guard_result(self.session().phase(), Operation::TimeToLive),
    {
        self.session.guard(Operation::TimeToLive)
    }

    /// Whether the initiator's identity may be asked for now.
    pub fn begin_client(&self) -> (r: Result<(), Error>)
        ensures
            r == guard_result(self.session().phase(), Operation::Client),
    {
        self.session.guard(Operation::Client)
    }
}

} // verus!
