//! The world: owner of the execution environment, the bus, the ledger, and
//! the agent set. It builds agents before the run, then drives one
//! cooperative step at a time — one step of the environment's worker or one
//! step of one agent — in any order a scheduler picks. Every safety
//! property of the kernel holds for every such interleaving.
//!
//! An agent's step either performs work, suspends (awaiting a reply or the
//! next inbound item), or contains a behavior failure. Once every agent has
//! halted the run resolves; the report says which agents halted normally
//! and which observed an environment failure.

use vstd::prelude::*;

use crate::environment::ReplySlot;
use crate::environment::SimulationEnvironment;
use crate::ledger::decode_op;
use crate::ledger::engine_outcome;
use crate::ledger::ledger_apply;
use crate::ledger::TokenLedger;
use crate::machine::Action;
use crate::machine::Behavior;
use crate::machine::MachineState;
use crate::machine::StateMachine;
use crate::messager::Messager;
use crate::types::events_of;
use crate::types::AgentId;
use crate::types::Event;
use crate::types::ItemV;
use crate::types::KernelError;
use crate::types::Message;
use crate::types::Operation;

verus! {

/// One agent: an identity, a behavior, and the machine driving it.
pub struct Agent<B: Behavior> {
    /// The agent's process-unique identity.
    pub id: AgentId,
    /// The agent's pluggable reaction logic.
    pub behavior: B,
    /// The state machine driving the behavior.
    pub machine: StateMachine,
}

/// What one agent step did.
#[derive(Clone, Copy, PartialEq, Eq, Structural, Debug)]
pub enum StepOutcome {
    /// Nothing to do: the agent is halted or suspended at one of its
    /// suspension points.
    Idle,
    /// The agent made progress.
    Progress,
    /// The behavior failed; the failure was contained, nothing was
    /// performed for the failed call, and the agent keeps running.
    BehaviorFailed,
}

/// How a run ended.
pub struct RunReport {
    /// Every agent reached `Halted` within the step budget.
    pub completed: bool,
    /// The environment failed, or some agent observed its failure.
    pub degraded: bool,
    /// Agents that halted normally, in registration order.
    pub halted_ok: Vec<AgentId>,
    /// Agents that halted observing `EnvironmentUnavailable`, in
    /// registration order.
    pub env_failed: Vec<AgentId>,
}

/// The identities of halted-normally agents, in order.
pub open spec fn ok_ids<B: Behavior>(agents: Seq<Agent<B>>) -> Seq<AgentId>
    decreases agents.len(),
{
    if agents.len() == 0 {
        Seq::empty()
    } else {
        let rest = ok_ids(agents.drop_last());
        if agents.last().machine.state is Halted && !agents.last().machine.env_failed {
            rest.push(agents.last().id)
        } else {
            rest
        }
    }
}

/// The identities of agents that observed the environment's failure.
pub open spec fn failed_ids<B: Behavior>(agents: Seq<Agent<B>>) -> Seq<AgentId>
    decreases agents.len(),
{
    if agents.len() == 0 {
        Seq::empty()
    } else {
        let rest = failed_ids(agents.drop_last());
        if agents.last().machine.env_failed {
            rest.push(agents.last().id)
        } else {
            rest
        }
    }
}

/// The operation payloads a batch of actions submits, in order.
pub open spec fn submit_payloads(actions: Seq<Action>) -> Seq<Seq<u8>>
    decreases actions.len(),
{
    if actions.len() == 0 {
        Seq::empty()
    } else {
        let rest = submit_payloads(actions.drop_last());
        match actions.last() {
            Action::Submit(p) => rest.push(p@),
            Action::Send(_, _) => rest,
        }
    }
}

/// Whether agent `a`'s oldest outstanding reply can be collected from
/// `env`: the ticket is real, the agent is its submitter, and the slot
/// holds a result or the environment's failure.
pub open spec fn front_collectable<B: Behavior>(env: SimulationEnvironment, a: Agent<B>) -> bool {
    &&& a.machine.pending@.len() > 0
    &&& a.machine.pending@[0] < env.submitted@.len()
    &&& env.submitted@[a.machine.pending@[0] as int].caller == a.id
    &&& (env.replies@[a.machine.pending@[0] as int] is Ready || env.replies@[
        a.machine.pending@[0] as int] is Unavailable)
}

/// Perform the actions a behavior returned, in order: submissions are
/// enqueued on the environment (their tickets joining the agent's
/// outstanding queue), messages are sent over the bus (an unknown recipient
/// is non-fatal and changes nothing). Returns false when a submission was
/// rejected because the environment is unavailable.
fn perform_actions<B: Behavior>(
    env: &mut SimulationEnvironment,
    msgr: &mut Messager,
    a: &mut Agent<B>,
    actions: Vec<Action>,
) -> (ok: bool)
    requires
        old(env).wf(),
        old(msgr).wf(),
    ensures
        final(env).wf(),
        final(msgr).wf(),
        final(env).alive == old(env).alive,
        final(env).executed == old(env).executed,
        final(env).trace() == old(env).trace(),
        old(env).submitted@.len() <= final(env).submitted@.len(),
        forall|k: int|
            0 <= k < old(env).submitted@.len() ==> final(env).submitted@[k] == #[trigger] old(
                env,
            ).submitted@[k],
        forall|k: int|
            old(env).submitted@.len() <= k < final(env).submitted@.len()
                ==> #[trigger] final(env).submitted@[k].caller == old(a).id,
        forall|k: int|
            0 <= k < old(env).replies@.len() ==> final(env).replies@[k] == #[trigger] old(
                env,
            ).replies@[k],
        final(msgr).ids() == old(msgr).ids(),
        final(msgr).boxes@.len() == old(msgr).boxes@.len(),
        forall|b: int|
            0 <= b < old(msgr).boxes@.len() ==> final(msgr).boxes@[b].cursor == #[trigger] old(
                msgr,
            ).boxes@[b].cursor && final(msgr).boxes@[b].id == old(msgr).boxes@[b].id,
        final(a).id == old(a).id,
        final(a).behavior == old(a).behavior,
        final(a).machine.state == old(a).machine.state,
        final(a).machine.env_failed == old(a).machine.env_failed,
        (!ok ==> !old(env).alive),
        (!old(env).alive ==> final(a).machine.pending@ == old(a).machine.pending@),
        (old(env).alive ==> ({
            let subs = submit_payloads(actions@);
            let base = old(a).machine.pending@.len();
            &&& final(env).submitted@.len() == old(env).submitted@.len() + subs.len()
            &&& (forall|j: int|
                0 <= j < subs.len() ==> #[trigger] final(env).submitted@[old(
                    env,
                ).submitted@.len() + j]@.payload == subs[j])
            &&& final(a).machine.pending@.len() == base + subs.len()
            &&& (forall|j: int|
                0 <= j < base ==> #[trigger] final(a).machine.pending@[j]
                    == old(a).machine.pending@[j])
            &&& (forall|j: int|
                base <= j < base + subs.len() ==> #[trigger] final(a).machine.pending@[j]
                    == old(env).submitted@.len() + (j - base))
        })),
{
    let ghost env0 = *env;
    let ghost msgr0 = *msgr;
    let ghost a0 = *a;
    let ghost actions0 = actions@;
    let mut actions = actions;
    let mut ok = true;
    while actions.len() > 0
        invariant
            env0.wf(),
            msgr0.wf(),
            env.wf(),
            msgr.wf(),
            env.alive == env0.alive,
            env.executed == env0.executed,
            env0.submitted@.len() <= env.submitted@.len(),
            actions@.len() <= actions0.len(),
            actions@ == actions0.skip(actions0.len() - actions@.len()),
            (env0.alive ==> ({
                let done = actions0.take(actions0.len() - actions@.len());
                let subs = submit_payloads(done);
                let base = a0.machine.pending@.len();
                &&& env.submitted@.len() == env0.submitted@.len() + subs.len()
                &&& (forall|j: int|
                    0 <= j < subs.len() ==> #[trigger] env.submitted@[env0.submitted@.len()
                        + j]@.payload == subs[j])
                &&& a.machine.pending@.len() == base + subs.len()
                &&& (forall|j: int|
                    0 <= j < base ==> #[trigger] a.machine.pending@[j] == a0.machine.pending@[j])
                &&& (forall|j: int|
                    base <= j < base + subs.len() ==> #[trigger] a.machine.pending@[j]
                        == env0.submitted@.len() + (j - base))
            })),
            forall|k: int|
                0 <= k < env0.submitted@.len() ==> env.submitted@[k] == #[trigger] env0.submitted@[k],
            forall|k: int|
                env0.submitted@.len() <= k < env.submitted@.len() ==> #[trigger] env.submitted@[k].caller == a0.id,
            forall|k: int|
                0 <= k < env0.replies@.len() ==> env.replies@[k] == #[trigger] env0.replies@[k],
            msgr.ids() == msgr0.ids(),
            msgr.boxes@.len() == msgr0.boxes@.len(),
            forall|b: int|
                0 <= b < msgr0.boxes@.len() ==> msgr.boxes@[b].cursor == #[trigger] (msgr0.boxes@[b].cursor)
                    && msgr.boxes@[b].id == msgr0.boxes@[b].id,
            a.id == a0.id,
            a.behavior == a0.behavior,
            a.machine.state == a0.machine.state,
            a.machine.env_failed == a0.machine.env_failed,
            (!ok ==> !env0.alive),
            (!env0.alive ==> a.machine.pending@ == a0.machine.pending@),
        decreases actions@.len(),
    {
        let ghost k = actions0.len() - actions@.len();
        let ghost done_pre = actions0.take(k as int);
        let act = actions.remove(0);
        proof {
            assert(act == actions0[k as int]);
            assert(actions@ =~= actions0.skip(k + 1 as int));
            let done_now = actions0.take(k + 1 as int);
            assert(done_now.drop_last() =~= done_pre);
            assert(done_now.last() == actions0[k as int]);
        }
        match act {
            Action::Submit(payload) => {
                let op = Operation { caller: a.id, payload };
                let submitted = env.submit(op);
                match submitted {
                    Ok(ticket) => {
                        a.machine.pending.push(ticket);
                    },
                    Err(_) => {
                        ok = false;
                    },
                }
            },
            Action::Send(to, data) => {
                let ghost msgr_pre = *msgr;
                let sent = msgr.send(Message { from: a.id, to, data });
                proof {
                    assert forall|b: int|
                        0 <= b < msgr0.boxes@.len() implies msgr.boxes@[b].cursor
                        == #[trigger] msgr0.boxes@[b].cursor && msgr.boxes@[b].id
                        == msgr0.boxes@[b].id by {
                        assert(msgr.inbox_of(b).len() >= 0);
                        assert(msgr.ids()[b] == msgr.boxes@[b].id);
                        assert(msgr_pre.ids()[b] == msgr_pre.boxes@[b].id);
                        assert(msgr_pre.boxes@[b].cursor == msgr0.boxes@[b].cursor);
                    }
                }
            },
        }
    }
    proof {
        assert(env.trace() =~= env0.trace());
        assert(actions0.take(actions0.len() as int) =~= actions0);
    }
    ok
}

/// The world: the environment, the bus, the ledger, and the agents.
pub struct World<B: Behavior> {
    /// The serialized execution resource all agents submit to.
    pub env: SimulationEnvironment,
    /// The publish/subscribe bus all agents communicate over.
    pub messager: Messager,
    /// The deterministic engine, owned exclusively by the worker step.
    pub ledger: TokenLedger,
    /// The agents, in registration order.
    pub agents: Vec<Agent<B>>,
    /// Whether `run` has started; the agent set is fixed from then on.
    pub running: bool,
    /// Whether the run is winding down: inbound sequences end once every
    /// task is otherwise quiescent, letting listeners halt.
    pub closing: bool,
}

impl<B: Behavior> World<B> {
    /// Well-formed: environment and bus well-formed, and an agent marked as
    /// having observed the environment's failure is halted.
    pub open spec fn wf(self) -> bool {
        &&& self.env.wf()
        &&& self.messager.wf()
        &&& (forall|k: int|
            0 <= k < self.agents@.len() ==> (#[trigger] self.agents@[k].machine.env_failed
                ==> self.agents@[k].machine.state is Halted))
    }

    /// A fresh world over a ledger of `accounts` accounts: no agents, not
    /// yet running.
    pub fn new(accounts: usize) -> (r: World<B>)
        ensures
            r.wf(),
            r.agents@.len() == 0,
            !r.running,
            !r.closing,
            r.env.alive,
            r.env.submitted@.len() == 0,
            r.env.executed == 0,
            r.messager.boxes@.len() == 0,
            r.ledger.balances@.len() == accounts,
            forall|i: int| 0 <= i < accounts ==> #[trigger] r.ledger.balances@[i] == 0,
    {
        World {
            env: SimulationEnvironment::new(),
            messager: Messager::new(),
            ledger: TokenLedger::new(accounts),
            agents: Vec::new(),
            running: false,
            closing: false,
        }
    }

    /// Add an agent before the run: registers its identity on the bus and
    /// installs its behavior with a fresh machine. Fails with
    /// `AlreadyRunning` once `run` has started and with `DuplicateId` when
    /// the identity is taken; either failure changes nothing.
    pub fn add_agent(&mut self, id: AgentId, behavior: B) -> (r: Result<(), KernelError>)
        requires
            old(self).wf(),
        ensures
            final(self).wf(),
            (r is Ok <==> (!old(self).running && !old(self).messager.registered(id))),
            (old(self).running ==> r == Err::<(), KernelError>(KernelError::AlreadyRunning)),
            (!old(self).running && old(self).messager.registered(id) ==> r == Err::<
                (),
                KernelError,
            >(KernelError::DuplicateId)),
            (r is Err ==> final(self).messager == old(self).messager && final(self).agents@ == old(
                self,
            ).agents@),
            final(self).env == old(self).env,
            final(self).ledger == old(self).ledger,
            final(self).running == old(self).running,
            final(self).closing == old(self).closing,
            (r is Ok ==> {
                &&& final(self).agents@.len() == old(self).agents@.len() + 1
                &&& (forall|k: int|
                    0 <= k < old(self).agents@.len() ==> #[trigger] final(self).agents@[k] == old(
                        self,
                    ).agents@[k])
                &&& final(self).agents@.last().id == id
                &&& final(self).agents@.last().machine.state is Uninitialized
                &&& final(self).agents@.last().machine.pending@.len() == 0
                &&& !final(self).agents@.last().machine.env_failed
                &&& final(self).messager.registered(id)
            }),
    {
        if self.running {
            return Err(KernelError::AlreadyRunning);
        }
        let registered = self.messager.register(id);
        match registered {
            Err(e) => Err(KernelError::DuplicateId),
            Ok(_) => {
                self.agents.push(Agent { id, behavior, machine: StateMachine::new() });
                Ok(())
            },
        }
    }

    /// One step of the environment's worker: execute the earliest
    /// unexecuted operation against the ledger, broadcast its events to
    /// every mailbox, and record its one reply — all before the next
    /// operation can run. Does nothing, returning false, when the queue is
    /// drained or the worker has failed.
    pub fn step_worker(&mut self) -> (r: bool)
        requires
            old(self).wf(),
        ensures
            final(self).wf(),
            (r <==> (old(self).env.alive && old(self).env.executed < old(
                self,
            ).env.submitted@.len())),
            (!r ==> *final(self) == *old(self)),
            final(self).agents@ == old(self).agents@,
            final(self).running == old(self).running,
            final(self).closing == old(self).closing,
            final(self).env.alive == old(self).env.alive,
            final(self).env.submitted@ == old(self).env.submitted@,
            (r ==> {
                &&& final(self).env.executed == old(self).env.executed + 1
                &&& final(self).env.trace() == old(self).env.trace().push(
                    old(self).env.submitted@[old(self).env.executed as int]@,
                )
                &&& final(self).ledger.balances@ == ledger_apply(
                    old(self).ledger.balances@,
                    decode_op(old(self).env.submitted@[old(self).env.executed as int]@.payload),
                )
                &&& (final(self).env.replies@[old(self).env.executed as int] matches
                    ReplySlot::Ready(res) && res@ == engine_outcome(
                    old(self).ledger.balances@,
                    old(self).env.submitted@[old(self).env.executed as int]@.payload,
                ))
                &&& (forall|k: int|
                    0 <= k < old(self).env.replies@.len() && k != old(self).env.executed
                        ==> #[trigger] final(self).env.replies@[k] == old(self).env.replies@[k])
                &&& (forall|b: int|
                    0 <= b < old(self).messager.boxes@.len() ==> {
                        &&& #[trigger] final(self).messager.inbox_of(b) == old(
                            self,
                        ).messager.inbox_of(b) + events_of(
                            engine_outcome(
                                old(self).ledger.balances@,
                                old(self).env.submitted@[old(
                                    self,
                                ).env.executed as int]@.payload,
                            ),
                        ).map_values(|e: Event| ItemV::Engine(e))
                        &&& final(self).messager.boxes@[b].cursor == old(
                            self,
                        ).messager.boxes@[b].cursor
                        &&& final(self).messager.boxes@[b].id == old(self).messager.boxes@[b].id
                    })
            }),
    {
        if !self.env.has_work() {
            return false;
        }
        let op = self.env.next_operation();
        let result = self.ledger.execute(&op);
        self.env.record_result(&mut self.messager, result);
        true
    }

    /// The environment's worker fails unrecoverably: every outstanding
    /// submission is answered `EnvironmentUnavailable`, later submissions
    /// are rejected, and everything already executed — results collected,
    /// events broadcast, agents halted — stays exactly as it was.
    pub fn fail_environment(&mut self)
        requires
            old(self).wf(),
        ensures
            final(self).wf(),
            !final(self).env.alive,
            final(self).env.submitted@ == old(self).env.submitted@,
            final(self).env.executed == old(self).env.executed,
            final(self).env.trace() == old(self).env.trace(),
            final(self).env.replies@.len() == old(self).env.replies@.len(),
            forall|i: int|
                0 <= i < old(self).env.executed ==> #[trigger] final(self).env.replies@[i] == old(
                    self,
                ).env.replies@[i],
            forall|i: int|
                old(self).env.executed <= i < old(self).env.replies@.len()
                    && old(self).env.replies@[i] is Pending
                    ==> #[trigger] final(self).env.replies@[i] is Unavailable,
            forall|i: int|
                old(self).env.executed <= i < old(self).env.replies@.len()
                    ==> (#[trigger] final(self).env.replies@[i] is Unavailable
                        || final(self).env.replies@[i] == old(self).env.replies@[i]),
            final(self).messager == old(self).messager,
            final(self).ledger == old(self).ledger,
            final(self).agents@ == old(self).agents@,
            final(self).running == old(self).running,
            final(self).closing == old(self).closing,
    {
        self.env.fail();
    }

    /// One cooperative step of agent `i`. A halted agent does nothing at
    /// all — halting is irreversible, whatever arrives later. A live agent
    /// first awaits its oldest outstanding reply (suspending while it is
    /// not ready, halting with `env_failed` when the environment has become
    /// unavailable, and otherwise handing the result to the behavior);
    /// with nothing outstanding it processes its next inbound item, halting
    /// when the behavior asks to or when the sequence has ended. A behavior
    /// failure is contained: nothing is performed for the failed call, no
    /// other agent changes, and this agent keeps running.
    #[verifier::rlimit(100)]
    pub fn step_agent(&mut self, i: usize) -> (r: StepOutcome)
        requires
            old(self).wf(),
            i < old(self).agents@.len(),
        ensures
            final(self).wf(),
            final(self).agents@.len() == old(self).agents@.len(),
            final(self).running == old(self).running,
            final(self).closing == old(self).closing,
            final(self).ledger == old(self).ledger,
            final(self).env.alive == old(self).env.alive,
            final(self).env.executed == old(self).env.executed,
            final(self).env.trace() == old(self).env.trace(),
            old(self).env.submitted@.len() <= final(self).env.submitted@.len(),
            forall|k: int|
                0 <= k < old(self).env.submitted@.len() ==> final(self).env.submitted@[k]
                    == #[trigger] old(self).env.submitted@[k],
            forall|k: int|
                old(self).env.submitted@.len() <= k < final(self).env.submitted@.len()
                    ==> #[trigger] final(self).env.submitted@[k].caller == old(self).agents@[
                    i as int].id,
            forall|j: int|
                0 <= j < old(self).agents@.len() && j != i ==> final(self).agents@[j]
                    == #[trigger] old(self).agents@[j],
            final(self).agents@[i as int].id == old(self).agents@[i as int].id,
            forall|k: int|
                0 <= k < old(self).env.replies@.len() && old(self).env.submitted@[k].caller != old(
                    self,
                ).agents@[i as int].id ==> final(self).env.replies@[k] == #[trigger] old(
                    self,
                ).env.replies@[k],
            final(self).messager.ids() == old(self).messager.ids(),
            final(self).messager.boxes@.len() == old(self).messager.boxes@.len(),
            forall|b: int|
                0 <= b < old(self).messager.boxes@.len() && old(self).messager.boxes@[b].id != old(
                    self,
                ).agents@[i as int].id ==> final(self).messager.boxes@[b].cursor == #[trigger] (old(
                    self,
                ).messager.boxes@[b].cursor),
            (old(self).agents@[i as int].machine.state is Halted ==> r is Idle && *final(self)
                == *old(self)),
            (r is Idle ==> *final(self) == *old(self)),
            (r is Idle && !(old(self).agents@[i as int].machine.state is Halted) ==> ({
                let a = old(self).agents@[i as int];
                ||| (a.machine.pending@.len() > 0 && !(a.machine.pending@[0]
                    < old(self).env.submitted@.len() && old(self).env.submitted@[
                    a.machine.pending@[0] as int].caller == a.id && (old(self).env.replies@[
                    a.machine.pending@[0] as int] is Ready || old(self).env.replies@[
                    a.machine.pending@[0] as int] is Unavailable)))
                ||| (a.machine.pending@.len() == 0 && !old(self).closing && (forall|b: int|
                    0 <= b < old(self).messager.boxes@.len() && old(self).messager.boxes@[b].id
                        == a.id ==> #[trigger] old(self).messager.boxes@[b].cursor >= old(
                        self,
                    ).messager.boxes@[b].inbox@.len()))
            })),
            (old(self).agents@[i as int].machine.state is Uninitialized ==> ({
                &&& !(r is Idle)
                &&& (r is BehaviorFailed ==> final(self).agents@[i as int].machine.state is
                    Started)
                &&& (r is Progress ==> (final(self).agents@[i as int].machine.state is Started
                    || final(self).agents@[i as int].machine.state is Halted))
            })),
            ((!(old(self).agents@[i as int].machine.state is Halted) && !(old(self).agents@[
                i as int].machine.state is Uninitialized) && front_collectable(
                old(self).env,
                old(self).agents@[i as int],
            )) ==> ({
                let front = old(self).agents@[i as int].machine.pending@[0];
                let pend = old(self).agents@[i as int].machine.pending@;
                &&& !(r is Idle)
                &&& final(self).env.replies@[front as int] is Taken
                &&& (forall|k: int|
                    0 <= k < old(self).env.replies@.len() && k != front
                        ==> final(self).env.replies@[k] == #[trigger] old(self).env.replies@[k])
                &&& final(self).agents@[i as int].machine.pending@.len() + 1 >= pend.len()
                &&& final(self).agents@[i as int].machine.pending@.take(pend.len() - 1)
                    == pend.skip(1)
                &&& (forall|j: int|
                    pend.len() - 1 <= j < final(self).agents@[i as int].machine.pending@.len()
                        ==> #[trigger] final(self).agents@[i as int].machine.pending@[j]
                        >= old(self).env.submitted@.len())
                &&& (old(self).env.replies@[front as int] is Unavailable ==> (r is Progress
                    && final(self).agents@[i as int].machine.state is Halted
                    && final(self).agents@[i as int].machine.env_failed
                    && final(self).agents@[i as int].machine.pending@ == pend.skip(1)))
            })),
            ((!(old(self).agents@[i as int].machine.state is Halted) && !(old(self).agents@[
                i as int].machine.state is Uninitialized) && old(self).agents@[
                i as int].machine.pending@.len() == 0 && (exists|b: int|
                0 <= b < old(self).messager.boxes@.len() && old(self).messager.boxes@[b].id == old(
                    self,
                ).agents@[i as int].id && #[trigger] old(self).messager.boxes@[b].cursor < old(
                    self,
                ).messager.boxes@[b].inbox@.len())) ==> ({
                &&& (r is Progress || r is BehaviorFailed)
                &&& (forall|b: int|
                    0 <= b < old(self).messager.boxes@.len() && old(self).messager.boxes@[b].id
                        == old(self).agents@[i as int].id ==> final(self).messager.boxes@[b].cursor
                        == #[trigger] (old(self).messager.boxes@[b].cursor) + 1)
            })),
            ((!(old(self).agents@[i as int].machine.state is Halted) && !(old(self).agents@[
                i as int].machine.state is Uninitialized) && old(self).agents@[
                i as int].machine.pending@.len() == 0 && old(self).closing && (forall|b: int|
                0 <= b < old(self).messager.boxes@.len() && old(self).messager.boxes@[b].id == old(
                    self,
                ).agents@[i as int].id ==> #[trigger] old(self).messager.boxes@[b].cursor >= old(
                    self,
                ).messager.boxes@[b].inbox@.len())) ==> (r is Progress && final(self).agents@[
                i as int].machine.state is Halted)),
            (r is BehaviorFailed ==> {
                &&& final(self).env.submitted@ == old(self).env.submitted@
                &&& final(self).env.alive == old(self).env.alive
                &&& (forall|b: int|
                    0 <= b < old(self).messager.boxes@.len()
                        ==> #[trigger] final(self).messager.inbox_of(b) == old(
                        self,
                    ).messager.inbox_of(b))
                &&& !(final(self).agents@[i as int].machine.state is Halted)
                &&& final(self).agents@[i as int].machine.env_failed == old(self).agents@[
                    i as int].machine.env_failed
            }),
    {
        let state = self.agents[i].machine.state;
        match state {
            MachineState::Halted => StepOutcome::Idle,
            MachineState::Uninitialized => {
                let a = &mut self.agents[i];
                let id = a.id;
                let res = a.behavior.startup(id);
                match res {
                    Err(_) => {
                        let a2 = &mut self.agents[i];
                        a2.machine.state = MachineState::Started;
                        StepOutcome::BehaviorFailed
                    },
                    Ok(reaction) => {
                        let halt = reaction.halt;
                        let a2 = &mut self.agents[i];
                        let ok = perform_actions(
                            &mut self.env,
                            &mut self.messager,
                            a2,
                            reaction.actions,
                        );
                        let a3 = &mut self.agents[i];
                        if !ok {
                            a3.machine.state = MachineState::Halted;
                            a3.machine.env_failed = true;
                        } else if halt {
                            a3.machine.state = MachineState::Halted;
                        } else {
                            a3.machine.state = MachineState::Started;
                        }
                        StepOutcome::Progress
                    },
                }
            },
            MachineState::Started | MachineState::Processing => {
                let id = self.agents[i].id;
                if self.agents[i].machine.pending.len() > 0 {
                    let t = self.agents[i].machine.pending[0];
                    let taken = self.env.take_reply(t, id);
                    proof {
                        if taken is Some {
                            assert forall|k: int|
                                0 <= k < old(self).env.replies@.len() && old(
                                    self,
                                ).env.submitted@[k].caller != old(self).agents@[i as int].id
                                implies self.env.replies@[k] == #[trigger] old(
                                self,
                            ).env.replies@[k] by {
                                assert(k != t);
                            }
                        }
                    }
                    match taken {
                        None => StepOutcome::Idle,
                        Some(reply) => {
                            let ghost pend0 = old(self).agents@[i as int].machine.pending@;
                            let ghost env_mid = self.env;
                            let a = &mut self.agents[i];
                            let _front: usize = a.machine.pending.remove(0);
                            proof {
                                assert(a.machine.pending@ =~= pend0.skip(1));
                            }
                            match reply {
                                Err(_) => {
                                    a.machine.state = MachineState::Halted;
                                    a.machine.env_failed = true;
                                    proof {
                                        assert(self.agents@[i as int].machine.pending@.take(
                                            pend0.len() - 1,
                                        ) =~= pend0.skip(1));
                                    }
                                    StepOutcome::Progress
                                },
                                Ok(res) => {
                                    let r2 = a.behavior.on_result(&res);
                                    match r2 {
                                        Err(_) => {
                                            proof {
                                                assert(self.agents@[i as int].machine.pending@.take(
                                                    pend0.len() - 1,
                                                ) =~= pend0.skip(1));
                                            }
                                            StepOutcome::BehaviorFailed
                                        },
                                        Ok(reaction) => {
                                            let halt = reaction.halt;
                                            let a2 = &mut self.agents[i];
                                            let ok = perform_actions(
                                                &mut self.env,
                                                &mut self.messager,
                                                a2,
                                                reaction.actions,
                                            );
                                            proof {
                                                assert(self.agents@[i as int].machine.pending@.take(
                                                    pend0.len() - 1,
                                                ) =~= pend0.skip(1));
                                                assert forall|j: int|
                                                    pend0.len() - 1 <= j < self.agents@[
                                                    i as int].machine.pending@.len()
                                                    implies #[trigger] self.agents@[
                                                    i as int].machine.pending@[j] >= old(
                                                    self,
                                                ).env.submitted@.len() by {
                                                }
                                                assert(env_mid.replies@[pend0[0] as int] is
                                                    Taken);
                                                assert forall|k: int|
                                                    0 <= k < env_mid.replies@.len()
                                                    implies #[trigger] self.env.replies@[k]
                                                    == env_mid.replies@[k] by {
                                                }
                                                assert(self.env.replies@[pend0[0] as int] is
                                                    Taken);
                                            }
                                            let a3 = &mut self.agents[i];
                                            if !ok {
                                                a3.machine.state = MachineState::Halted;
                                                a3.machine.env_failed = true;
                                            } else if halt {
                                                a3.machine.state = MachineState::Halted;
                                            }
                                            StepOutcome::Progress
                                        },
                                    }
                                },
                            }
                        },
                    }
                } else {
                    let item_opt = self.messager.next_item(id);
                    match item_opt {
                        Some(item) => {
                            let a = &mut self.agents[i];
                            let res = a.behavior.process(&item);
                            match res {
                                Err(_) => {
                                    a.machine.state = MachineState::Processing;
                                    StepOutcome::BehaviorFailed
                                },
                                Ok(reaction) => {
                                    let halt = reaction.halt;
                                    let a2 = &mut self.agents[i];
                                    let ok = perform_actions(
                                        &mut self.env,
                                        &mut self.messager,
                                        a2,
                                        reaction.actions,
                                    );
                                    let a3 = &mut self.agents[i];
                                    if !ok {
                                        a3.machine.state = MachineState::Halted;
                                        a3.machine.env_failed = true;
                                    } else if halt {
                                        a3.machine.state = MachineState::Halted;
                                    } else {
                                        a3.machine.state = MachineState::Processing;
                                    }
                                    StepOutcome::Progress
                                },
                            }
                        },
                        None => {
                            if self.closing {
                                let a = &mut self.agents[i];
                                a.machine.state = MachineState::Halted;
                                StepOutcome::Progress
                            } else {
                                StepOutcome::Idle
                            }
                        },
                    }
                }
            },
        }
    }

    /// The report of the current state: whether every agent has halted,
    /// whether the run is degraded (the environment failed or some agent
    /// observed its failure), and which agents halted normally versus
    /// observing `EnvironmentUnavailable`.
    pub fn report(&self) -> (r: RunReport)
        ensures
            (r.completed <==> (forall|k: int|
                0 <= k < self.agents@.len() ==> #[trigger] self.agents@[k].machine.state is
                    Halted)),
            (r.degraded <==> (!self.env.alive || exists|k: int|
                0 <= k < self.agents@.len() && #[trigger] self.agents@[k].machine.env_failed)),
            r.halted_ok@ == ok_ids(self.agents@),
            r.env_failed@ == failed_ids(self.agents@),
    {
        let mut completed = true;
        let mut any_failed = false;
        let mut halted_ok: Vec<AgentId> = Vec::new();
        let mut env_failed: Vec<AgentId> = Vec::new();
        let mut k: usize = 0;
        while k < self.agents.len()
            invariant
                k <= self.agents@.len(),
                (completed <==> (forall|j: int|
                    0 <= j < k ==> #[trigger] self.agents@[j].machine.state is Halted)),
                (any_failed <==> (exists|j: int|
                    0 <= j < k && #[trigger] self.agents@[j].machine.env_failed)),
                halted_ok@ == ok_ids(self.agents@.take(k as int)),
                env_failed@ == failed_ids(self.agents@.take(k as int)),
            decreases self.agents@.len() - k,
        {
            let halted = match self.agents[k].machine.state {
                MachineState::Halted => true,
                _ => false,
            };
            if !halted {
                completed = false;
            }
            if self.agents[k].machine.env_failed {
                any_failed = true;
                env_failed.push(self.agents[k].id);
            }
            if halted && !self.agents[k].machine.env_failed {
                halted_ok.push(self.agents[k].id);
            }
            proof {
                assert(self.agents@.take(k + 1 as int).drop_last() =~= self.agents@.take(
                    k as int,
                ));
                assert(self.agents@.take(k + 1 as int).last() == self.agents@[k as int]);
            }
            k = k + 1;
        }
        proof {
            assert(self.agents@.take(self.agents@.len() as int) =~= self.agents@);
        }
        let degraded = !self.env.alive || any_failed;
        RunReport { completed, degraded, halted_ok, env_failed }
    }

    /// Drive the whole world: mark it running, then repeat rounds of one
    /// worker step followed by one step of each agent, in order, within the
    /// given step budget — with any budget at all, queued work is guaranteed
    /// to advance. When a full round makes no progress the inbound
    /// sequences are closed so listeners halt; a second quiescent round
    /// resolves the run. The report says whether every agent halted within
    /// the budget and which observed the environment's failure.
    pub fn run(&mut self, fuel: u64) -> (r: RunReport)
        requires
            old(self).wf(),
        ensures
            final(self).wf(),
            final(self).running,
            final(self).agents@.len() == old(self).agents@.len(),
            final(self).env.alive == old(self).env.alive,
            ((fuel > 0 && old(self).env.alive && old(self).env.executed < old(
                self,
            ).env.submitted@.len()) ==> final(self).env.executed > old(self).env.executed),
            forall|k: int|
                0 <= k < old(self).agents@.len() ==> final(self).agents@[k].id == #[trigger] old(
                    self,
                ).agents@[k].id,
            (r.completed <==> (forall|k: int|
                0 <= k < final(self).agents@.len() ==> #[trigger] final(self).agents@[
                    k].machine.state is Halted)),
            (r.degraded <==> (!final(self).env.alive || exists|k: int|
                0 <= k < final(self).agents@.len() && #[trigger] final(self).agents@[
                    k].machine.env_failed)),
            r.halted_ok@ == ok_ids(final(self).agents@),
            r.env_failed@ == failed_ids(final(self).agents@),
    {
        self.running = true;
        self.closing = false;
        let ghost w0 = *self;
        if fuel > 0 {
            let _worked: bool = self.step_worker();
        }
        let mut rounds: u64 = 0;
        while rounds < fuel
            invariant
                self.wf(),
                self.running,
                self.agents@.len() == w0.agents@.len(),
                self.env.alive == w0.env.alive,
                w0.env.submitted@.len() <= self.env.submitted@.len(),
                self.env.executed >= w0.env.executed,
                ((fuel > 0 && w0.env.alive && w0.env.executed < w0.env.submitted@.len())
                    ==> self.env.executed > w0.env.executed),
                forall|k: int|
                    0 <= k < w0.agents@.len() ==> self.agents@[k].id == #[trigger] w0.agents@[k].id,
                rounds <= fuel,
            decreases fuel - rounds,
        {
            let mut progress = false;
            if self.step_worker() {
                progress = true;
            }
            let mut i: usize = 0;
            while i < self.agents.len()
                invariant
                    self.wf(),
                    self.running,
                    self.agents@.len() == w0.agents@.len(),
                    self.env.alive == w0.env.alive,
                    w0.env.submitted@.len() <= self.env.submitted@.len(),
                    self.env.executed >= w0.env.executed,
                    ((fuel > 0 && w0.env.alive && w0.env.executed < w0.env.submitted@.len())
                        ==> self.env.executed > w0.env.executed),
                    forall|k: int|
                        0 <= k < w0.agents@.len() ==> self.agents@[k].id == #[trigger] w0.agents@[k].id,
                    i <= self.agents@.len(),
                decreases self.agents@.len() - i,
            {
                let outcome = self.step_agent(i);
                match outcome {
                    StepOutcome::Idle => {},
                    _ => {
                        progress = true;
                    },
                }
                i = i + 1;
            }
            if !progress {
                if self.closing {
                    break ;
                } else {
                    self.closing = true;
                }
            }
            rounds = rounds + 1;
        }
        self.report()
    }
}

} // verus!
