//! The execution environment: the single serialized execution resource.
//!
//! Agents enqueue operations with `submit`; a worker drains the queue one
//! operation at a time, in first-in first-out order, and for each one
//! records exactly one reply for the submitter and broadcasts the emitted
//! events to every subscribed mailbox before the next operation runs. This
//! makes the environment the sole ledger writer and induces one global
//! total order of mutations across all agents.
//!
//! An unrecoverable worker failure marks the environment unavailable: every
//! submission still awaiting its reply is answered `EnvironmentUnavailable`
//! (never left hanging), and later submissions are rejected outright.

use vstd::prelude::*;

use crate::messager::Messager;
use crate::types::events_of;
use crate::types::AgentId;
use crate::types::Event;
use crate::types::ExecutionResult;
use crate::types::ItemV;
use crate::types::KernelError;
use crate::types::Operation;
use crate::types::OperationV;

verus! {

/// The lifecycle of one submission's reply.
pub enum ReplySlot {
    /// The operation has not been executed yet.
    Pending,
    /// The operation was executed; its result awaits the submitter.
    Ready(ExecutionResult),
    /// The worker failed before executing the operation.
    Unavailable,
    /// The submitter has collected the reply.
    Taken,
}

/// The serialized execution resource: the inbound operation queue, how much
/// of it has been executed, and one reply slot per submission.
pub struct SimulationEnvironment {
    /// Every operation ever submitted, in enqueue order.
    pub submitted: Vec<Operation>,
    /// How many of `submitted` have been executed; operations run in
    /// enqueue order, so the executed ones are exactly this prefix.
    pub executed: usize,
    /// One reply per submission, under the submission's ticket.
    pub replies: Vec<ReplySlot>,
    /// Whether the worker is still able to execute operations.
    pub alive: bool,
}

impl SimulationEnvironment {
    /// The observed execution trace: the operations the worker has run,
    /// in execution order.
    pub open spec fn trace(self) -> Seq<OperationV> {
        self.submitted@.take(self.executed as int).map_values(|o: Operation| o@)
    }

    /// The operations submitted so far, in enqueue order.
    pub open spec fn enqueue_order(self) -> Seq<OperationV> {
        self.submitted@.map_values(|o: Operation| o@)
    }

    /// Well-formed: one reply slot per submission; the executed prefix lies
    /// within the queue; an executed operation's slot is never still
    /// pending; while the worker lives, unexecuted slots are pending, and
    /// once it has failed none is — no submitter is left hanging.
    pub open spec fn wf(self) -> bool {
        &&& self.replies@.len() == self.submitted@.len()
        &&& self.executed <= self.submitted@.len()
        &&& (forall|i: int|
            0 <= i < self.executed ==> !(#[trigger] self.replies@[i] is Pending)
                && !(self.replies@[i] is Unavailable))
        &&& (self.alive ==> (forall|i: int|
            self.executed <= i < self.replies@.len() ==> #[trigger] self.replies@[i] is Pending))
        &&& (!self.alive ==> (forall|i: int|
            self.executed <= i < self.replies@.len() ==> (#[trigger] self.replies@[i] is
            Unavailable || self.replies@[i] is Taken)))
    }

    /// A fresh environment: nothing submitted, worker alive.
    pub fn new() -> (r: SimulationEnvironment)
        ensures
            r.wf(),
            r.alive,
            r.submitted@.len() == 0,
            r.executed == 0,
    {
        SimulationEnvironment { submitted: Vec::new(), executed: 0, replies: Vec::new(), alive: true }
    }

    /// Enqueue an operation on the unbounded queue and hand back its
    /// ticket, under which exactly one reply will appear. Rejected with
    /// `EnvironmentUnavailable`, changing nothing, if and only if the
    /// worker has failed.
    pub fn submit(&mut self, op: Operation) -> (r: Result<usize, KernelError>)
        requires
            old(self).wf(),
        ensures
            final(self).wf(),
            (r is Ok <==> old(self).alive),
            (r matches Err(e) ==> e == KernelError::EnvironmentUnavailable && *final(self)
                == *old(self)),
            (r matches Ok(ticket) ==> {
                &&& ticket == old(self).submitted@.len()
                &&& final(self).submitted@ == old(self).submitted@.push(op)
                &&& final(self).replies@ == old(self).replies@.push(ReplySlot::Pending)
                &&& final(self).executed == old(self).executed
                &&& final(self).alive
            }),
    {
        if !self.alive {
            return Err(KernelError::EnvironmentUnavailable);
        }
        let ticket = self.submitted.len();
        self.submitted.push(op);
        self.replies.push(ReplySlot::Pending);
        Ok(ticket)
    }

    /// Whether the worker has an operation waiting to execute.
    pub fn has_work(&self) -> (r: bool)
        ensures
            r <==> (self.alive && self.executed < self.submitted@.len()),
    {
        self.alive && self.executed < self.submitted.len()
    }

    /// The next operation the worker must execute: the earliest submitted
    /// one still unexecuted — first-in first-out, never reordered.
    pub fn next_operation(&self) -> (r: Operation)
        requires
            self.executed < self.submitted@.len(),
        ensures
            r@ == self.submitted@[self.executed as int]@,
    {
        self.submitted[self.executed].clone()
    }

    /// Record the execution of the next queued operation: broadcast the
    /// result's events, in emission order, to every mailbox of the bus, and
    /// make the result available under the operation's ticket — one reply,
    /// for the submitter alone. The broadcast of this operation completes
    /// before the next operation can be recorded.
    pub fn record_result(&mut self, messager: &mut Messager, result: ExecutionResult)
        requires
            old(self).wf(),
            old(self).alive,
            old(self).executed < old(self).submitted@.len(),
            old(messager).wf(),
        ensures
            final(self).wf(),
            final(messager).wf(),
            final(messager).ids() == old(messager).ids(),
            final(self).alive,
            final(self).submitted@ == old(self).submitted@,
            final(self).executed == old(self).executed + 1,
            final(self).trace() == old(self).trace().push(
                old(self).submitted@[old(self).executed as int]@,
            ),
            final(self).replies@ == old(self).replies@.update(
                old(self).executed as int,
                ReplySlot::Ready(result),
            ),
            forall|b: int|
                0 <= b < old(messager).boxes@.len() ==> {
                    &&& #[trigger] final(messager).inbox_of(b) == old(messager).inbox_of(b)
                        + events_of(result@).map_values(|e: Event| ItemV::Engine(e))
                    &&& final(messager).boxes@[b].cursor == old(messager).boxes@[b].cursor
                    &&& final(messager).boxes@[b].id == old(messager).boxes@[b].id
                },
    {
        match &result {
            ExecutionResult::Success { events, .. } => {
                messager.broadcast(events);
            },
            ExecutionResult::Failure { .. } => {
                proof {
                    assert forall|b: int| 0 <= b < messager.boxes@.len() implies #[trigger]
                    messager.inbox_of(b) == messager.inbox_of(b) + events_of(
                        result@,
                    ).map_values(|e: Event| ItemV::Engine(e)) by {
                        assert(events_of(result@).map_values(|e: Event| ItemV::Engine(e))
                            =~= Seq::<ItemV>::empty());
                        assert(messager.inbox_of(b) + Seq::<ItemV>::empty() =~= messager.inbox_of(
                            b,
                        ));
                    }
                }
            },
        }
        let ghost pre = *self;
        let k = self.executed;
        let n = self.submitted.len();
        assert(k < n);
        self.replies[k] = ReplySlot::Ready(result);
        self.executed = k + 1;
        proof {
            assert(self.trace() =~= pre.trace().push(pre.submitted@[pre.executed as int]@));
        }
    }

    /// The worker has failed unrecoverably. Every submission still awaiting
    /// execution is answered `EnvironmentUnavailable` — an unrecoverable
    /// failure surfaces, never a silent hang — and the executed prefix,
    /// its results, and every reply already collected stay as they were.
    pub fn fail(&mut self)
        requires
            old(self).wf(),
        ensures
            final(self).wf(),
            !final(self).alive,
            final(self).submitted@ == old(self).submitted@,
            final(self).executed == old(self).executed,
            final(self).trace() == old(self).trace(),
            final(self).replies@.len() == old(self).replies@.len(),
            forall|i: int|
                0 <= i < old(self).executed ==> #[trigger] final(self).replies@[i] == old(self).replies@[i],
            forall|i: int|
                old(self).executed <= i < old(self).replies@.len() ==> (#[trigger] final(self).replies@[i] is Unavailable
                    || final(self).replies@[i] == old(self).replies@[i]),
            forall|i: int|
                old(self).executed <= i < old(self).replies@.len() && old(self).replies@[i] is
                    Pending ==> #[trigger] final(self).replies@[i] is Unavailable,
    {
        let ghost pre = *self;
        self.alive = false;
        let mut i = self.executed;
        while i < self.replies.len()
            invariant
                pre.executed <= i <= self.replies@.len(),
                self.replies@.len() == pre.replies@.len(),
                self.submitted@ == pre.submitted@,
                self.executed == pre.executed,
                !self.alive,
                forall|k: int| 0 <= k < pre.executed ==> #[trigger] self.replies@[k]
                    == pre.replies@[k],
                forall|k: int| i <= k < pre.replies@.len() ==> #[trigger] self.replies@[k]
                    == pre.replies@[k],
                forall|k: int|
                    pre.executed <= k < i ==> (#[trigger] self.replies@[k] is Unavailable
                        || self.replies@[k] == pre.replies@[k]),
                forall|k: int|
                    pre.executed <= k < i && pre.replies@[k] is Pending
                        ==> #[trigger] self.replies@[k] is Unavailable,
            decreases self.replies@.len() - i,
        {
            let pending = match &self.replies[i] {
                ReplySlot::Pending => true,
                _ => false,
            };
            if pending {
                self.replies[i] = ReplySlot::Unavailable;
            }
            i = i + 1;
        }
    }

    /// Collect the reply under `ticket`, as `caller`: the submitter's one
    /// result (or `EnvironmentUnavailable` after a worker failure), handed
    /// out exactly once; `None` while the reply is not ready, when the
    /// caller is not the submitter, or when the reply was already taken.
    pub fn take_reply(&mut self, ticket: usize, caller: AgentId) -> (r: Option<
        Result<ExecutionResult, KernelError>,
    >)
        requires
            old(self).wf(),
        ensures
            final(self).wf(),
            (r is None ==> *final(self) == *old(self)),
            (r is Some ==> {
                &&& ticket < old(self).submitted@.len()
                &&& old(self).submitted@[ticket as int].caller == caller
                &&& final(self).replies@ == old(self).replies@.update(
                    ticket as int,
                    ReplySlot::Taken,
                )
                &&& final(self).submitted@ == old(self).submitted@
                &&& final(self).executed == old(self).executed
                &&& final(self).alive == old(self).alive
            }),
            (r is Some <==> ticket < old(self).submitted@.len()
                && old(self).submitted@[ticket as int].caller == caller
                && (old(self).replies@[ticket as int] is Ready
                    || old(self).replies@[ticket as int] is Unavailable)),
            (old(self).replies@[ticket as int] matches ReplySlot::Ready(res) ==> (r is Some
                ==> (r matches Some(out) && out matches Ok(payload) && payload@ == res@))),
            (old(self).replies@[ticket as int] is Unavailable ==> (r is Some ==> r == Some(
                Err::<ExecutionResult, KernelError>(KernelError::EnvironmentUnavailable),
            ))),
    {
        if ticket >= self.submitted.len() {
            return None;
        }
        if self.submitted[ticket].caller != caller {
            return None;
        }
        let ready = match &self.replies[ticket] {
            ReplySlot::Ready(_) => true,
            ReplySlot::Unavailable => true,
            _ => false,
        };
        if !ready {
            return None;
        }
        let mut slot = ReplySlot::Taken;
        core::mem::swap(&mut slot, &mut self.replies[ticket]);
        match slot {
            ReplySlot::Ready(res) => Some(Ok(res)),
            ReplySlot::Unavailable => Some(
                Err::<ExecutionResult, KernelError>(KernelError::EnvironmentUnavailable),
            ),
            _ => None,
        }
    }
}

/// Law (single writer, first-in first-out): in every reachable environment
/// the observed execution trace is exactly the prefix of the enqueue order
/// that has run so far — for any interleaving of submitting agents, the
/// worker never reorders operations.
pub proof fn lemma_single_writer_fifo(env: SimulationEnvironment)
    requires
        env.wf(),
    ensures
        env.trace().len() == env.executed,
        env.trace() == env.enqueue_order().take(env.executed as int),
        forall|i: int| 0 <= i < env.executed ==> #[trigger] env.trace()[i] == env.enqueue_order()[i],
{
    assert(env.trace() =~= env.enqueue_order().take(env.executed as int));
}

/// Law (exactly one reply, never a silent hang): every submission has
/// exactly one reply slot, executed submissions are answered, and once the
/// worker has failed no submission is left pending — each caller with an
/// outstanding submission observes `EnvironmentUnavailable` rather than
/// waiting forever.
pub proof fn lemma_exactly_one_reply(env: SimulationEnvironment)
    requires
        env.wf(),
    ensures
        env.replies@.len() == env.enqueue_order().len(),
        forall|i: int| 0 <= i < env.executed ==> !(#[trigger] env.replies@[i] is Pending),
        !env.alive ==> (forall|i: int|
            0 <= i < env.replies@.len() ==> !(#[trigger] env.replies@[i] is Pending)),
{
}

} // verus!
