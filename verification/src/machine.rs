//! The state machine that drives one agent's behavior through its
//! lifecycle: `Uninitialized` until `startup` runs, `Started` until the
//! first inbound item, `Processing` while items arrive, and `Halted` —
//! terminal and irreversible — once the behavior asks to stop, the inbound
//! sequence ends, or the environment becomes unavailable.
//!
//! A behavior acts only through the kernel: it returns the actions it wants
//! performed (submissions and messages), and the kernel performs them. A
//! failure inside the behavior is caught at this boundary as a non-fatal
//! `BehaviorError`: nothing is performed for the failed call, and
//! processing continues with the next item.

use vstd::prelude::*;

use crate::types::AgentId;
use crate::types::ExecutionResult;
use crate::types::InboundItem;
use crate::types::KernelError;
use crate::types::To;

verus! {

/// Lifecycle states of an agent.
#[derive(Clone, Copy, PartialEq, Eq, Structural, Debug)]
pub enum MachineState {
    /// Built, `startup` not yet run.
    Uninitialized,
    /// `startup` ran; no inbound item processed yet.
    Started,
    /// At least one inbound item processed.
    Processing,
    /// Terminal: no further `startup` or `process` call ever occurs.
    Halted,
}

/// One side effect a behavior asks the kernel to perform.
pub enum Action {
    /// Submit an operation with this payload to the execution environment;
    /// the reply is handed back through `Behavior::on_result`.
    Submit(Vec<u8>),
    /// Send a message with this payload over the bus.
    Send(To, Vec<u8>),
}

/// What a behavior call asks of the kernel: actions to perform, in order,
/// and whether the agent should halt afterwards.
pub struct Reaction {
    /// The side effects to perform, in order.
    pub actions: Vec<Action>,
    /// Whether the agent halts after the actions are performed.
    pub halt: bool,
}

impl Reaction {
    /// A reaction that does nothing and keeps going.
    pub fn none() -> (r: Reaction)
        ensures
            r.actions@.len() == 0,
            !r.halt,
    {
        Reaction { actions: Vec::new(), halt: false }
    }

    /// A reaction that does nothing and halts the agent.
    pub fn halt() -> (r: Reaction)
        ensures
            r.actions@.len() == 0,
            r.halt,
    {
        Reaction { actions: Vec::new(), halt: true }
    }
}

/// The pluggable reaction logic of one agent. Side effects happen only
/// through the returned `Reaction`; an `Err` from any method is the
/// behavior's own failure, contained at the state machine boundary.
pub trait Behavior {
    /// Called once, before any item: the agent's identity is fixed and the
    /// behavior may request its first actions.
    fn startup(&mut self, me: AgentId) -> Result<Reaction, KernelError>;

    /// Called for each inbound item (peer message or broadcast event).
    fn process(&mut self, item: &InboundItem) -> Result<Reaction, KernelError>;

    /// Called with the execution result of each operation this agent
    /// submitted, in submission order: the one reply of that submission.
    fn on_result(&mut self, result: &ExecutionResult) -> Result<Reaction, KernelError>;
}

/// The per-agent machine bookkeeping: lifecycle state, outstanding
/// submission tickets awaiting their replies, and whether the agent halted
/// because the environment became unavailable.
pub struct StateMachine {
    /// Current lifecycle state.
    pub state: MachineState,
    /// Tickets of submissions whose replies are still outstanding, oldest
    /// first; while nonempty the agent is suspended awaiting the front one.
    pub pending: Vec<usize>,
    /// Whether the agent halted observing `EnvironmentUnavailable`.
    pub env_failed: bool,
}

impl StateMachine {
    /// A fresh machine: uninitialized, nothing outstanding.
    pub fn new() -> (r: StateMachine)
        ensures
            r.state is Uninitialized,
            r.pending@.len() == 0,
            !r.env_failed,
    {
        StateMachine { state: MachineState::Uninitialized, pending: Vec::new(), env_failed: false }
    }
}

} // verus!
