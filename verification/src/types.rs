//! Plain data carried through the kernel: identities, messages, operations,
//! execution results, events, and the error kinds the kernel reports.

use vstd::prelude::*;

verus! {

/// Process-unique identity of an agent, stable for the agent's lifetime and
/// never reused within a run.
pub type AgentId = u64;

/// Address of a message: one named agent, or every registered agent.
#[derive(Clone, Copy, PartialEq, Eq, Structural, Debug)]
pub enum To {
    /// Deliver to the one agent with this identity.
    Agent(AgentId),
    /// Deliver to every registered agent.
    All,
}

/// A peer-to-peer message; immutable once sent.
#[derive(Debug)]
pub struct Message {
    /// Identity of the sender.
    pub from: AgentId,
    /// Recipient: one agent or all.
    pub to: To,
    /// Opaque payload bytes.
    pub data: Vec<u8>,
}

impl Clone for Message {
    fn clone(&self) -> (r: Self)
        ensures
            r@ == self@,
    {
        Message { from: self.from, to: self.to, data: clone_bytes(&self.data) }
    }
}

/// A ledger-emitted notification, opaque to the kernel except for its
/// filtering fields.
#[derive(Clone, Copy, PartialEq, Eq, Structural, Debug)]
pub struct Event {
    /// The account the event concerns.
    pub emitter: u64,
    /// Discriminating tag (which kind of event this is).
    pub tag: u64,
    /// Payload value of the event.
    pub value: u64,
}

/// An opaque request against the ledger, carrying its caller's identity.
#[derive(Debug)]
pub struct Operation {
    /// Identity of the submitting agent; the one reply goes here.
    pub caller: AgentId,
    /// Engine-specific payload bytes, decoded only by the ledger.
    pub payload: Vec<u8>,
}

impl Clone for Operation {
    fn clone(&self) -> (r: Self)
        ensures
            r.caller == self.caller,
            r.payload@ == self.payload@,
    {
        Operation { caller: self.caller, payload: clone_bytes(&self.payload) }
    }
}

/// Outcome of executing one operation against the ledger; immutable once
/// produced. A logical failure (a rejected operation) is an ordinary
/// `Failure` value, not an environment error.
#[derive(Debug)]
pub enum ExecutionResult {
    /// The operation committed: a result payload plus the events it emitted,
    /// in emission order.
    Success {
        /// Result bytes returned to the caller.
        payload: Vec<u8>,
        /// Events emitted by the operation, in order.
        events: Vec<Event>,
    },
    /// The operation was rejected; the ledger is unchanged.
    Failure {
        /// Engine-specific reason code.
        reason: u64,
    },
}

impl Clone for ExecutionResult {
    fn clone(&self) -> (r: Self)
        ensures
            r@ == self@,
    {
        match self {
            ExecutionResult::Success { payload, events } => {
                ExecutionResult::Success {
                    payload: clone_bytes(payload),
                    events: clone_events(events),
                }
            },
            ExecutionResult::Failure { reason } => ExecutionResult::Failure { reason: *reason },
        }
    }
}

/// Mathematical value of a `Message`: its fields with the payload as a
/// sequence of bytes.
pub struct MessageV {
    /// Identity of the sender.
    pub from: AgentId,
    /// Recipient: one agent or all.
    pub to: To,
    /// Payload bytes.
    pub data: Seq<u8>,
}

impl View for Message {
    type V = MessageV;

    open spec fn view(&self) -> MessageV {
        MessageV { from: self.from, to: self.to, data: self.data@ }
    }
}

/// One item of an agent's merged inbound sequence: a peer message or a
/// ledger event.
#[derive(Debug)]
pub enum InboundItem {
    /// A message from a peer agent.
    Peer(Message),
    /// An event broadcast by the execution environment.
    Engine(Event),
}

impl Clone for InboundItem {
    fn clone(&self) -> (r: Self)
        ensures
            r@ == self@,
    {
        match self {
            InboundItem::Peer(m) => InboundItem::Peer(m.clone()),
            InboundItem::Engine(e) => InboundItem::Engine(*e),
        }
    }
}

/// Mathematical value of an `InboundItem`.
pub enum ItemV {
    /// A peer message, by its mathematical value.
    Peer(MessageV),
    /// A ledger event (already a plain value).
    Engine(Event),
}

impl View for InboundItem {
    type V = ItemV;

    open spec fn view(&self) -> ItemV {
        match self {
            InboundItem::Peer(m) => ItemV::Peer(m@),
            InboundItem::Engine(e) => ItemV::Engine(*e),
        }
    }
}

/// Mathematical value of an `Operation`.
pub struct OperationV {
    /// Identity of the submitting agent.
    pub caller: AgentId,
    /// Payload bytes.
    pub payload: Seq<u8>,
}

impl View for Operation {
    type V = OperationV;

    open spec fn view(&self) -> OperationV {
        OperationV { caller: self.caller, payload: self.payload@ }
    }
}

/// Mathematical value of an `ExecutionResult`.
pub enum ResultV {
    /// A committed operation: payload bytes and emitted events, in order.
    Success {
        /// Result bytes returned to the caller.
        payload: Seq<u8>,
        /// Events emitted by the operation, in order.
        events: Seq<Event>,
    },
    /// A rejected operation.
    Failure {
        /// Engine-specific reason code.
        reason: u64,
    },
}

impl View for ExecutionResult {
    type V = ResultV;

    open spec fn view(&self) -> ResultV {
        match self {
            ExecutionResult::Success { payload, events } => ResultV::Success {
                payload: payload@,
                events: events@,
            },
            ExecutionResult::Failure { reason } => ResultV::Failure { reason: *reason },
        }
    }
}

/// The events an execution result broadcasts: those of a success, in
/// emission order; a rejected operation emits none.
pub open spec fn events_of(r: ResultV) -> Seq<Event> {
    match r {
        ResultV::Success { events, .. } => events,
        ResultV::Failure { .. } => Seq::empty(),
    }
}

/// The error kinds the kernel reports.
#[derive(Clone, Copy, PartialEq, Eq, Structural, Debug)]
pub enum KernelError {
    /// `register` was asked for an identity that is already taken.
    DuplicateId,
    /// `send` named a recipient that is not registered; non-fatal.
    NoSuchRecipient,
    /// A behavior could not decode a message; contained at the state
    /// machine boundary.
    MessageDecodeError,
    /// The execution environment's worker has failed; fatal to any agent
    /// with an outstanding submission.
    EnvironmentUnavailable,
    /// A behavior failed while processing an item; contained at the state
    /// machine boundary.
    BehaviorError,
    /// The world was asked to change its agent set after `run` started.
    AlreadyRunning,
}

/// Copy a byte vector; the copy's contents equal the original's.
pub fn clone_bytes(v: &Vec<u8>) -> (r: Vec<u8>)
    ensures
        r@ == v@,
{
    let mut r: Vec<u8> = Vec::new();
    let mut i: usize = 0;
    while i < v.len()
        invariant
            i <= v.len(),
            r@ == v@.take(i as int),
        decreases v.len() - i,
    {
        r.push(v[i]);
        proof {
            assert(v@.take(i + 1 as int) =~= v@.take(i as int).push(v@[i as int]));
        }
        i = i + 1;
    }
    proof {
        assert(v@.take(v.len() as int) =~= v@);
    }
    r
}

/// Copy a vector of events; the copy's contents equal the original's.
pub fn clone_events(v: &Vec<Event>) -> (r: Vec<Event>)
    ensures
        r@ == v@,
{
    let mut r: Vec<Event> = Vec::new();
    let mut i: usize = 0;
    while i < v.len()
        invariant
            i <= v.len(),
            r@ == v@.take(i as int),
        decreases v.len() - i,
    {
        r.push(v[i]);
        proof {
            assert(v@.take(i + 1 as int) =~= v@.take(i as int).push(v@[i as int]));
        }
        i = i + 1;
    }
    proof {
        assert(v@.take(v.len() as int) =~= v@);
    }
    r
}

} // verus!
