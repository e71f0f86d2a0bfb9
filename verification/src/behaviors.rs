//! Behaviors shipped with the kernel, mirroring its example agents: a
//! token administrator that serves peer queries over the bus, a token
//! minter that submits one mint on startup and halts once its reply
//! arrives, and a listener that only collects what it observes.

use vstd::prelude::*;

use crate::ledger::encode_mint;
use crate::ledger::push_u64_le;
use crate::ledger::read_u64_le;
use crate::ledger::u64_of_le;
use crate::machine::Action;
use crate::machine::Behavior;
use crate::machine::Reaction;
use crate::types::AgentId;
use crate::types::Event;
use crate::types::ExecutionResult;
use crate::types::InboundItem;
use crate::types::KernelError;
use crate::types::To;

verus! {

/// Query opcode: ask the administrator for the token's address.
pub const QUERY_ADDRESS_OF: u8 = 0;

/// Query opcode: ask the administrator to mint tokens.
pub const QUERY_MINT: u8 = 1;

/// A query a token administrator answers, carried as message bytes.
#[derive(Clone, Copy, PartialEq, Eq, Structural, Debug)]
pub enum AdminQuery {
    /// Ask for the address of the administered token.
    AddressOf,
    /// Ask for `amount` tokens to be minted to account `to`.
    MintTo {
        /// Receiving account.
        to: u64,
        /// Amount to mint.
        amount: u64,
    },
}

/// The query a message payload denotes, if it is well formed: one opcode
/// byte, then the query's fields as eight little-endian bytes each.
pub open spec fn decode_query(p: Seq<u8>) -> Option<AdminQuery> {
    if p.len() == 1 && p[0] == QUERY_ADDRESS_OF {
        Some(AdminQuery::AddressOf)
    } else if p.len() == 17 && p[0] == QUERY_MINT {
        Some(
            AdminQuery::MintTo {
                to: u64_of_le(p.subrange(1, 9)),
                amount: u64_of_le(p.subrange(9, 17)),
            },
        )
    } else {
        None
    }
}

/// Encode an address query.
pub fn encode_address_of() -> (r: Vec<u8>)
    ensures
        decode_query(r@) == Some(AdminQuery::AddressOf),
{
    let mut r: Vec<u8> = Vec::new();
    r.push(QUERY_ADDRESS_OF);
    r
}

/// Encode a mint request for `amount` tokens to account `to`.
pub fn encode_mint_request(to: u64, amount: u64) -> (r: Vec<u8>)
    ensures
        decode_query(r@) == Some(AdminQuery::MintTo { to, amount }),
{
    let mut r: Vec<u8> = Vec::new();
    r.push(QUERY_MINT);
    push_u64_le(&mut r, to);
    push_u64_le(&mut r, amount);
    proof {
        assert(r@.subrange(1, 9) =~= crate::ledger::le_bytes(to));
        assert(r@.subrange(9, 17) =~= crate::ledger::le_bytes(amount));
        crate::ledger::lemma_le_round_trip(to);
        crate::ledger::lemma_le_round_trip(amount);
    }
    r
}

/// Decode a message payload into the query it denotes, if any.
pub fn decode_query_bytes(p: &Vec<u8>) -> (r: Option<AdminQuery>)
    ensures
        r == decode_query(p@),
{
    if p.len() == 1 && p[0] == QUERY_ADDRESS_OF {
        Some(AdminQuery::AddressOf)
    } else if p.len() == 17 && p[0] == QUERY_MINT {
        Some(AdminQuery::MintTo { to: read_u64_le(p, 1), amount: read_u64_le(p, 9) })
    } else {
        None
    }
}

/// Administers one token: answers peer queries for its address, submits the
/// mints peers request, and halts once it has served its quota of mints. A
/// message it cannot decode is its own `MessageDecodeError`, contained at
/// the state machine boundary.
pub struct TokenAdmin {
    /// The administered token's address.
    pub token_address: u64,
    /// How many mint requests have been served.
    pub minted: u64,
    /// Halt once this many mint requests were served.
    pub max_mints: u64,
}

impl TokenAdmin {
    /// An administrator of the token at `token_address`, serving up to
    /// `max_mints` mint requests.
    pub fn new(token_address: u64, max_mints: u64) -> (r: TokenAdmin)
        ensures
            r.token_address == token_address,
            r.minted == 0,
            r.max_mints == max_mints,
    {
        TokenAdmin { token_address, minted: 0, max_mints }
    }
}

impl Behavior for TokenAdmin {
    fn startup(&mut self, me: AgentId) -> Result<Reaction, KernelError> {
        Ok(Reaction::none())
    }

    fn process(&mut self, item: &InboundItem) -> Result<Reaction, KernelError> {
        match item {
            InboundItem::Engine(_) => Ok(Reaction::none()),
            InboundItem::Peer(msg) => {
                match decode_query_bytes(&msg.data) {
                    None => Err(KernelError::MessageDecodeError),
                    Some(AdminQuery::AddressOf) => {
                        let mut data: Vec<u8> = Vec::new();
                        push_u64_le(&mut data, self.token_address);
                        let mut actions: Vec<Action> = Vec::new();
                        actions.push(Action::Send(To::Agent(msg.from), data));
                        Ok(Reaction { actions, halt: false })
                    },
                    Some(AdminQuery::MintTo { to, amount }) => {
                        if self.minted < u64::MAX {
                            self.minted = self.minted + 1;
                        }
                        let mut actions: Vec<Action> = Vec::new();
                        actions.push(Action::Submit(encode_mint(to, amount)));
                        Ok(Reaction { actions, halt: false })
                    },
                }
            },
        }
    }

    fn on_result(&mut self, result: &ExecutionResult) -> Result<Reaction, KernelError> {
        // Halt once the quota of served mints is reached, after the last
        // mint's reply has arrived.
        Ok(Reaction { actions: Vec::new(), halt: self.minted >= self.max_mints })
    }
}

/// Submits one mint of `amount` tokens to account `to` at startup, records
/// the one reply it gets, and halts.
pub struct TokenMinter {
    /// Receiving account of the mint.
    pub to: u64,
    /// Amount to mint.
    pub amount: u64,
    /// The reply of the submitted mint, once observed.
    pub outcome: Option<ExecutionResult>,
}

impl TokenMinter {
    /// A minter of `amount` tokens to account `to`.
    pub fn new(to: u64, amount: u64) -> (r: TokenMinter)
        ensures
            r.to == to,
            r.amount == amount,
            r.outcome is None,
    {
        TokenMinter { to, amount, outcome: None }
    }
}

impl Behavior for TokenMinter {
    fn startup(&mut self, me: AgentId) -> Result<Reaction, KernelError> {
        let mut actions: Vec<Action> = Vec::new();
        actions.push(Action::Submit(encode_mint(self.to, self.amount)));
        Ok(Reaction { actions, halt: false })
    }

    fn process(&mut self, item: &InboundItem) -> Result<Reaction, KernelError> {
        Ok(Reaction::none())
    }

    fn on_result(&mut self, result: &ExecutionResult) -> Result<Reaction, KernelError> {
        self.outcome = Some(result.clone());
        Ok(Reaction::halt())
    }
}

/// Submits nothing and sends nothing: collects every broadcast event it is
/// delivered and runs until its inbound sequence ends.
pub struct Listener {
    /// Every event observed, in delivery order.
    pub seen: Vec<Event>,
}

impl Listener {
    /// A listener that has seen nothing yet.
    pub fn new() -> (r: Listener)
        ensures
            r.seen@.len() == 0,
    {
        Listener { seen: Vec::new() }
    }
}

impl Behavior for Listener {
    fn startup(&mut self, me: AgentId) -> Result<Reaction, KernelError> {
        Ok(Reaction::none())
    }

    fn process(&mut self, item: &InboundItem) -> Result<Reaction, KernelError> {
        match item {
            InboundItem::Engine(e) => {
                self.seen.push(*e);
            },
            InboundItem::Peer(_) => {},
        }
        Ok(Reaction::none())
    }

    fn on_result(&mut self, result: &ExecutionResult) -> Result<Reaction, KernelError> {
        Ok(Reaction::none())
    }
}

} // verus!
