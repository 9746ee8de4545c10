//! Running a plan of requests against a host.
//!
//! A transaction holds the requests of one operation. The host asks which
//! request is pending, performs it and reports the reply; the transaction
//! then moves on to the next request or stops at the first failure.

use vstd::prelude::*;
use crate::error::Error;
use crate::register::{Request, Step};

verus! {

/// What the host reports after performing a request.
#[derive(Debug, PartialEq, Eq)]
pub enum Reply<W, R> {
    /// A write or a delay went through.
    Done,
    /// A read went through and delivered these bytes.
    Data(Vec<u8>),
    /// The bus refused a write.
    WriteFailed(W),
    /// The bus refused a read, or a combined write-then-read.
    ReadFailed(R),
}

/// A reply, reduced to what decides how a transaction goes on.
pub enum Outcome {
    Done,
    Data(Seq<u8>),
    Failed,
}

impl<W, R> Reply<W, R> {
    /// How the transaction goes on after this reply.
    pub open spec fn outcome(self) -> Outcome {
        match self {
            Reply::Done => Outcome::Done,
            Reply::Data(data) => Outcome::Data(data@),
            Reply::WriteFailed(_) | Reply::ReadFailed(_) => Outcome::Failed,
        }
    }

    /// Whether this reply can follow the request `step`: a write succeeds
    /// or fails as a write, a read of either form delivers as many bytes as
    /// were asked for or fails as a read, and a delay always succeeds.
    pub open spec fn answers(self, step: Step) -> bool {
        match step {
            Step::Write { .. } => self is Done || self is WriteFailed,
            Step::Read { len, .. } | Step::WriteRead { len, .. } => {
                ||| self is ReadFailed
                ||| self matches Reply::Data(data) && data@.len() == len
            },
            Step::Delay { .. } => self is Done,
        }
    }

    /// What the operation reports for this reply: a failed write as a write
    /// error, a failed read as a read error, each with the bus's own error.
    pub open spec fn verdict(self) -> Result<(), Error<W, R>> {
        match self {
            Reply::Done | Reply::Data(_) => Ok(()),
            Reply::WriteFailed(e) => Err(Error::WriteError(e)),
            Reply::ReadFailed(e) => Err(Error::ReadError(e)),
        }
    }
}

/// The state of a transaction as a mathematical value.
pub struct Run {
    /// The requests of the operation, in the order in which they are made.
    pub plan: Seq<Step>,
    /// How many of them went through.
    pub cursor: nat,
    /// Whether a request failed.
    pub failed: bool,
    /// What the most recent read delivered.
    pub data: Seq<u8>,
}

impl Run {
    /// A transaction of which nothing has been performed yet.
    pub open spec fn start(plan: Seq<Step>) -> Run {
        Run { plan, cursor: 0, failed: false, data: Seq::empty() }
    }

    /// The request that the host has to perform now, if any.
    pub open spec fn pending(self) -> Option<Step> {
        if !self.failed && self.cursor < self.plan.len() {
            Some(self.plan[self.cursor as int])
        } else {
            None
        }
    }

    /// Whether every request went through.
    pub open spec fn complete(self) -> bool {
        !self.failed && self.cursor >= self.plan.len()
    }

    /// The state after the host reported on the pending request.
    pub open spec fn resume(self, outcome: Outcome) -> Run {
        match outcome {
            Outcome::Done => Run { cursor: self.cursor + 1, ..self },
            Outcome::Data(data) => Run { cursor: self.cursor + 1, data, ..self },
            Outcome::Failed => Run { failed: true, ..self },
        }
    }

    /// The state after the host reported `outcomes`, one after the other.
    pub open spec fn resume_all(self, outcomes: Seq<Outcome>) -> Run
        decreases outcomes.len(),
    {
        if outcomes.len() == 0 {
            self
        } else {
            self.resume(outcomes[0]).resume_all(outcomes.skip(1))
        }
    }
}

/// One operation in progress.
pub struct Transaction {
    plan: Vec<Request>,
    cursor: usize,
    failed: bool,
    data: Vec<u8>,
}

impl View for Transaction {
    type V = Run;

    closed spec fn view(&self) -> Run {
        Run {
            plan: self.plan.deep_view(),
            cursor: self.cursor as nat,
            failed: self.failed,
            data: self.data@,
        }
    }
}

impl Transaction {
    /// A transaction that will make the requests of `plan` in order.
    pub fn new(plan: Vec<Request>) -> (txn: Transaction)
        ensures
            txn@ == Run::start(plan.deep_view()),
    {
        Transaction { plan, cursor: 0, failed: false, data: Vec::new() }
    }

    /// The request that the host has to perform now. `None` once the
    /// transaction is complete or has failed.
    pub fn pending(&self) -> (request: Option<&Request>)
        ensures
            request is Some <==> self@.pending() is Some,
            request matches Some(r) ==> self@.pending() == Some(r@),
    {
        if !self.failed && self.cursor < self.plan.len() {
            Some(&self.plan[self.cursor])
        } else {
            None
        }
    }

    /// Takes the host's reply to the pending request. After a success the
    /// next request of the plan is pending; a failure ends the transaction
    /// and comes back as the operation's error.
    pub fn resume<W, R>(&mut self, reply: Reply<W, R>) -> (result: Result<(), Error<W, R>>)
        requires
            old(self)@.pending() is Some,
            reply.answers(old(self)@.pending().unwrap()),
        ensures
            final(self)@ == old(self)@.resume(reply.outcome()),
            result == reply.verdict(),
        no_unwind
    {
        assert(self.cursor < self.plan.len()) by {
            assert(self.plan.deep_view().len() == self.plan@.len());
        }
        match reply {
            Reply::Done => {
                self.cursor = self.cursor + 1;
                Ok(())
            },
            Reply::Data(data) => {
                self.data = data;
                self.cursor = self.cursor + 1;
                Ok(())
            },
            Reply::WriteFailed(e) => {
                self.failed = true;
                Err(Error::WriteError(e))
            },
            Reply::ReadFailed(e) => {
                self.failed = true;
                Err(Error::ReadError(e))
            },
        }
    }

    /// Ends the transaction as failed: no request is pending afterwards.
    pub(crate) fn abort(&mut self)
        ensures
            final(self)@ == (Run { failed: true, ..old(self)@ }),
        no_unwind
    {
        self.failed = true;
    }

    /// How many requests of the plan went through.
    pub fn position(&self) -> (position: usize)
        ensures
            position == self@.cursor,
    {
        self.cursor
    }

    /// Whether every request of the plan went through.
    pub fn is_complete(&self) -> (complete: bool)
        ensures
            complete == self@.complete(),
    {
        !self.failed && self.cursor >= self.plan.len()
    }

    /// The bytes that the most recent read delivered; empty before the first.
    pub fn data(&self) -> (data: &[u8])
        ensures
            data@ == self@.data,
    {
        self.data.as_slice()
    }
}

/// A failure keeps its half: what answers a write fails, if at all, as a
/// write error; what answers a read or a combined transfer fails, if at all,
/// as a read error; and a delay does not fail.
pub proof fn lemma_failures_keep_their_half<W, R>(reply: Reply<W, R>, step: Step)
    requires
        reply.answers(step),
    ensures
        step is Write ==> reply.verdict() is Ok || reply.verdict() matches Err(
            Error::WriteError(_),
        ),
        step is Read || step is WriteRead ==> reply.verdict() is Ok || reply.verdict() matches Err(
            Error::ReadError(_),
        ),
        step is Delay ==> reply.verdict() is Ok,
        reply.verdict() is Err <==> reply.outcome() is Failed,
{
}

/// A transaction makes the requests of its plan in order, without gaps:
/// while every reply is a success, the pending request after `n` replies is
/// the plan's entry `n`, and after as many successes as the plan has entries
/// the transaction is complete.
pub proof fn lemma_successes_walk_the_plan(plan: Seq<Step>, outcomes: Seq<Outcome>)
    requires
        outcomes.len() <= plan.len(),
        forall|i: int| 0 <= i < outcomes.len() ==> !(outcomes[i] is Failed),
    ensures
        Run::start(plan).resume_all(outcomes).cursor == outcomes.len(),
        !Run::start(plan).resume_all(outcomes).failed,
        outcomes.len() < plan.len() ==> Run::start(plan).resume_all(outcomes).pending() == Some(
            plan[outcomes.len() as int],
        ),
        outcomes.len() == plan.len() ==> Run::start(plan).resume_all(outcomes).complete(),
{
    lemma_successes_advance(Run::start(plan), outcomes);
}

/// The first failure ends a transaction: whatever is reported after it,
/// nothing is pending and the transaction is not complete.
pub proof fn lemma_failure_is_final(run: Run, outcomes: Seq<Outcome>)
    requires
        run.failed,
    ensures
        run.resume_all(outcomes).failed,
        run.resume_all(outcomes).pending() is None,
        !run.resume_all(outcomes).complete(),
    decreases outcomes.len(),
{
    if outcomes.len() > 0 {
        lemma_failure_is_final(run.resume(outcomes[0]), outcomes.skip(1));
    }
}

proof fn lemma_successes_advance(run: Run, outcomes: Seq<Outcome>)
    requires
        !run.failed,
        forall|i: int| 0 <= i < outcomes.len() ==> !(outcomes[i] is Failed),
    ensures
        run.resume_all(outcomes).cursor == run.cursor + outcomes.len(),
        run.resume_all(outcomes).plan == run.plan,
        !run.resume_all(outcomes).failed,
    decreases outcomes.len(),
{
    if outcomes.len() > 0 {
        let rest = outcomes.skip(1);
        assert forall|i: int| 0 <= i < rest.len() implies !(rest[i] is Failed) by {
            assert(rest[i] == outcomes[i + 1]);
        }
        lemma_successes_advance(run.resume(outcomes[0]), rest);
    }
}

} // verus!
