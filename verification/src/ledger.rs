//! The deterministic execution engine behind the environment's worker: a
//! token ledger. It is the sole component that reads or writes balances,
//! and `execute` is a function of the current state and the operation alone
//! — identical `(state, operation)` pairs always produce identical results.
//!
//! Operation payloads are opaque bytes to the rest of the kernel; the
//! ledger decodes them with the fixed little-endian format below.

use vstd::prelude::*;

use crate::types::Event;
use crate::types::ExecutionResult;
use crate::types::Operation;
use crate::types::ResultV;

verus! {

/// Event tag of a mint.
pub const TAG_MINT: u64 = 1;

/// Event tag of a transfer.
pub const TAG_TRANSFER: u64 = 2;

/// Failure reason: the payload is not a well-formed operation.
pub const REASON_MALFORMED: u64 = 1;

/// Failure reason: an account number lies outside the ledger.
pub const REASON_UNKNOWN_ACCOUNT: u64 = 2;

/// Failure reason: the source balance cannot cover the transfer.
pub const REASON_INSUFFICIENT: u64 = 3;

/// Failure reason: the destination balance would overflow.
pub const REASON_OVERFLOW: u64 = 4;

/// Payload opcode of a mint.
pub const OP_MINT: u8 = 0;

/// Payload opcode of a transfer.
pub const OP_TRANSFER: u8 = 1;

/// Payload opcode of a balance query.
pub const OP_BALANCE_OF: u8 = 2;

/// A decoded ledger operation.
#[derive(Clone, Copy, PartialEq, Eq, Structural, Debug)]
pub enum LedgerOp {
    /// Create `amount` new tokens on account `to`.
    Mint {
        /// Receiving account.
        to: u64,
        /// Amount to create.
        amount: u64,
    },
    /// Move `amount` tokens from `from` to `to`.
    Transfer {
        /// Source account.
        from: u64,
        /// Destination account.
        to: u64,
        /// Amount to move.
        amount: u64,
    },
    /// Read the balance of `who`.
    BalanceOf {
        /// Queried account.
        who: u64,
    },
}

/// The value of eight little-endian bytes.
pub open spec fn u64_of_le(s: Seq<u8>) -> u64 {
    (s[0] as u64) | ((s[1] as u64) << 8) | ((s[2] as u64) << 16) | ((s[3] as u64) << 24) | ((
    s[4] as u64) << 32) | ((s[5] as u64) << 40) | ((s[6] as u64) << 48) | ((s[7] as u64) << 56)
}

/// The eight little-endian bytes of a value.
pub open spec fn le_bytes(x: u64) -> Seq<u8> {
    seq![
        (x & 0xff) as u8,
        ((x >> 8) & 0xff) as u8,
        ((x >> 16) & 0xff) as u8,
        ((x >> 24) & 0xff) as u8,
        ((x >> 32) & 0xff) as u8,
        ((x >> 40) & 0xff) as u8,
        ((x >> 48) & 0xff) as u8,
        ((x >> 56) & 0xff) as u8,
    ]
}

/// Reading back the little-endian bytes of a value gives the value.
pub proof fn lemma_le_round_trip(x: u64)
    ensures
        u64_of_le(le_bytes(x)) == x,
{
    assert(((((x & 0xff) as u8) as u64) | (((((x >> 8) & 0xff) as u8) as u64) << 8) | (((((x
        >> 16) & 0xff) as u8) as u64) << 16) | (((((x >> 24) & 0xff) as u8) as u64) << 24) | (((((
    x >> 32) & 0xff) as u8) as u64) << 32) | (((((x >> 40) & 0xff) as u8) as u64) << 40) | (((((x
        >> 48) & 0xff) as u8) as u64) << 48) | (((((x >> 56) & 0xff) as u8) as u64) << 56)) == x)
        by (bit_vector);
}

/// The operation a payload denotes, if it is well formed: one opcode byte,
/// then the operation's fields as eight little-endian bytes each.
pub open spec fn decode_op(p: Seq<u8>) -> Option<LedgerOp> {
    if p.len() == 17 && p[0] == OP_MINT {
        Some(
            LedgerOp::Mint {
                to: u64_of_le(p.subrange(1, 9)),
                amount: u64_of_le(p.subrange(9, 17)),
            },
        )
    } else if p.len() == 25 && p[0] == OP_TRANSFER {
        Some(
            LedgerOp::Transfer {
                from: u64_of_le(p.subrange(1, 9)),
                to: u64_of_le(p.subrange(9, 17)),
                amount: u64_of_le(p.subrange(17, 25)),
            },
        )
    } else if p.len() == 9 && p[0] == OP_BALANCE_OF {
        Some(LedgerOp::BalanceOf { who: u64_of_le(p.subrange(1, 9)) })
    } else {
        None
    }
}

/// Whether `op` is accepted on `balances`.
pub open spec fn ledger_ok(balances: Seq<u64>, op: Option<LedgerOp>) -> bool {
    match op {
        Some(LedgerOp::Mint { to, amount }) => to < balances.len() && balances[to as int] + amount
            <= u64::MAX,
        Some(LedgerOp::Transfer { from, to, amount }) => {
            &&& from < balances.len()
            &&& to < balances.len()
            &&& balances[from as int] >= amount
            &&& (from == to || balances[to as int] + amount <= u64::MAX)
        },
        Some(LedgerOp::BalanceOf { who }) => who < balances.len(),
        None => false,
    }
}

/// The balances after `op`: changed only when the operation is accepted.
pub open spec fn ledger_apply(balances: Seq<u64>, op: Option<LedgerOp>) -> Seq<u64> {
    if !ledger_ok(balances, op) {
        balances
    } else {
        match op {
            Some(LedgerOp::Mint { to, amount }) => balances.update(
                to as int,
                (balances[to as int] + amount) as u64,
            ),
            Some(LedgerOp::Transfer { from, to, amount }) => {
                let debited = balances.update(from as int, (balances[from as int] - amount) as u64);
                debited.update(to as int, (debited[to as int] + amount) as u64)
            },
            _ => balances,
        }
    }
}

/// The failure reason `op` is rejected with on `balances`, when it is.
pub open spec fn ledger_reason(balances: Seq<u64>, op: Option<LedgerOp>) -> u64 {
    match op {
        None => REASON_MALFORMED,
        Some(LedgerOp::Mint { to, amount }) => if to >= balances.len() {
            REASON_UNKNOWN_ACCOUNT
        } else {
            REASON_OVERFLOW
        },
        Some(LedgerOp::Transfer { from, to, amount }) => if from >= balances.len() || to
            >= balances.len() {
            REASON_UNKNOWN_ACCOUNT
        } else if balances[from as int] < amount {
            REASON_INSUFFICIENT
        } else {
            REASON_OVERFLOW
        },
        Some(LedgerOp::BalanceOf { who }) => REASON_UNKNOWN_ACCOUNT,
    }
}

/// The events an accepted operation emits, in emission order.
pub open spec fn ledger_events(balances: Seq<u64>, op: Option<LedgerOp>) -> Seq<Event> {
    match op {
        Some(LedgerOp::Mint { to, amount }) => seq![
            Event { emitter: to, tag: TAG_MINT, value: amount },
        ],
        Some(LedgerOp::Transfer { from, to, amount }) => seq![
            Event { emitter: from, tag: TAG_TRANSFER, value: amount },
        ],
        _ => Seq::empty(),
    }
}

/// The result payload of an accepted operation: the queried balance's
/// little-endian bytes for a balance query, nothing otherwise.
pub open spec fn ledger_payload(balances: Seq<u64>, op: Option<LedgerOp>) -> Seq<u8> {
    match op {
        Some(LedgerOp::BalanceOf { who }) => le_bytes(balances[who as int]),
        _ => Seq::empty(),
    }
}

/// The full outcome of one operation on the given balances: what the
/// engine's reply to the submitter holds.
pub open spec fn engine_outcome(balances: Seq<u64>, payload: Seq<u8>) -> ResultV {
    let d = decode_op(payload);
    if ledger_ok(balances, d) {
        ResultV::Success {
            payload: ledger_payload(balances, d),
            events: ledger_events(balances, d),
        }
    } else {
        ResultV::Failure { reason: ledger_reason(balances, d) }
    }
}

/// Read the eight little-endian bytes at `off`.
pub(crate) fn read_u64_le(p: &Vec<u8>, off: usize) -> (r: u64)
    requires
        off + 8 <= p@.len(),
    ensures
        r == u64_of_le(p@.subrange(off as int, off + 8)),
{
    let n = p.len();
    let r = (p[off] as u64) | ((p[off + 1] as u64) << 8) | ((p[off + 2] as u64) << 16) | ((p[off
        + 3] as u64) << 24) | ((p[off + 4] as u64) << 32) | ((p[off + 5] as u64) << 40) | ((p[off
        + 6] as u64) << 48) | ((p[off + 7] as u64) << 56);
    proof {
        let s = p@.subrange(off as int, off + 8);
        assert(s[0] == p@[off as int] && s[1] == p@[off + 1] && s[2] == p@[off + 2]
            && s[3] == p@[off + 3] && s[4] == p@[off + 4] && s[5] == p@[off + 5]
            && s[6] == p@[off + 6] && s[7] == p@[off + 7]);
    }
    r
}

/// Append the eight little-endian bytes of `x`.
pub(crate) fn push_u64_le(v: &mut Vec<u8>, x: u64)
    ensures
        final(v)@ == old(v)@ + le_bytes(x),
{
    v.push((x & 0xff) as u8);
    v.push(((x >> 8) & 0xff) as u8);
    v.push(((x >> 16) & 0xff) as u8);
    v.push(((x >> 24) & 0xff) as u8);
    v.push(((x >> 32) & 0xff) as u8);
    v.push(((x >> 40) & 0xff) as u8);
    v.push(((x >> 48) & 0xff) as u8);
    v.push(((x >> 56) & 0xff) as u8);
    proof {
        assert(v@ =~= old(v)@ + le_bytes(x));
    }
}

/// Encode a mint of `amount` to account `to`.
pub fn encode_mint(to: u64, amount: u64) -> (r: Vec<u8>)
    ensures
        decode_op(r@) == Some(LedgerOp::Mint { to, amount }),
{
    let mut r: Vec<u8> = Vec::new();
    r.push(OP_MINT);
    push_u64_le(&mut r, to);
    push_u64_le(&mut r, amount);
    proof {
        assert(r@.subrange(1, 9) =~= le_bytes(to));
        assert(r@.subrange(9, 17) =~= le_bytes(amount));
        lemma_le_round_trip(to);
        lemma_le_round_trip(amount);
    }
    r
}

/// Encode a transfer of `amount` from `from` to `to`.
pub fn encode_transfer(from: u64, to: u64, amount: u64) -> (r: Vec<u8>)
    ensures
        decode_op(r@) == Some(LedgerOp::Transfer { from, to, amount }),
{
    let mut r: Vec<u8> = Vec::new();
    r.push(OP_TRANSFER);
    push_u64_le(&mut r, from);
    push_u64_le(&mut r, to);
    push_u64_le(&mut r, amount);
    proof {
        assert(r@.subrange(1, 9) =~= le_bytes(from));
        assert(r@.subrange(9, 17) =~= le_bytes(to));
        assert(r@.subrange(17, 25) =~= le_bytes(amount));
        lemma_le_round_trip(from);
        lemma_le_round_trip(to);
        lemma_le_round_trip(amount);
    }
    r
}

/// Encode a balance query for account `who`.
pub fn encode_balance_of(who: u64) -> (r: Vec<u8>)
    ensures
        decode_op(r@) == Some(LedgerOp::BalanceOf { who }),
{
    let mut r: Vec<u8> = Vec::new();
    r.push(OP_BALANCE_OF);
    push_u64_le(&mut r, who);
    proof {
        assert(r@.subrange(1, 9) =~= le_bytes(who));
        lemma_le_round_trip(who);
    }
    r
}

/// Decode a payload into the operation it denotes, if any.
pub fn decode_payload(p: &Vec<u8>) -> (r: Option<LedgerOp>)
    ensures
        r == decode_op(p@),
{
    if p.len() == 17 && p[0] == OP_MINT {
        Some(LedgerOp::Mint { to: read_u64_le(p, 1), amount: read_u64_le(p, 9) })
    } else if p.len() == 25 && p[0] == OP_TRANSFER {
        Some(
            LedgerOp::Transfer {
                from: read_u64_le(p, 1),
                to: read_u64_le(p, 9),
                amount: read_u64_le(p, 17),
            },
        )
    } else if p.len() == 9 && p[0] == OP_BALANCE_OF {
        Some(LedgerOp::BalanceOf { who: read_u64_le(p, 1) })
    } else {
        None
    }
}

/// The token ledger: one balance per account, owned exclusively by the
/// environment's worker.
pub struct TokenLedger {
    /// Balance of each account; the account number is the position.
    pub balances: Vec<u64>,
}

impl TokenLedger {
    /// A ledger of `accounts` accounts, all with balance zero.
    pub fn new(accounts: usize) -> (r: TokenLedger)
        ensures
            r.balances@.len() == accounts,
            forall|i: int| 0 <= i < accounts ==> #[trigger] r.balances@[i] == 0,
    {
        let mut balances: Vec<u64> = Vec::new();
        let mut i: usize = 0;
        while i < accounts
            invariant
                i <= accounts,
                balances@.len() == i,
                forall|k: int| 0 <= k < i ==> #[trigger] balances@[k] == 0,
            decreases accounts - i,
        {
            balances.push(0);
            i = i + 1;
        }
        TokenLedger { balances }
    }

    /// Execute one operation: decode its payload, apply it if accepted, and
    /// report the outcome. Deterministic: the new state and the result are
    /// functions of the old state and the operation alone, and a rejected
    /// operation leaves the ledger unchanged.
    pub fn execute(&mut self, op: &Operation) -> (r: ExecutionResult)
        ensures
            final(self).balances@ == ledger_apply(old(self).balances@, decode_op(op.payload@)),
            (r is Success <==> ledger_ok(old(self).balances@, decode_op(op.payload@))),
            (r is Success ==> r@ == (ResultV::Success {
                payload: ledger_payload(old(self).balances@, decode_op(op.payload@)),
                events: ledger_events(old(self).balances@, decode_op(op.payload@)),
            })),
            (r is Failure ==> r@ == (ResultV::Failure {
                reason: ledger_reason(old(self).balances@, decode_op(op.payload@)),
            })),
    {
        let decoded = decode_payload(&op.payload);
        match decoded {
            None => ExecutionResult::Failure { reason: REASON_MALFORMED },
            Some(LedgerOp::Mint { to, amount }) => {
                if to >= self.balances.len() as u64 {
                    return ExecutionResult::Failure { reason: REASON_UNKNOWN_ACCOUNT };
                }
                let to_ix = to as usize;
                let bal = self.balances[to_ix];
                if amount > u64::MAX - bal {
                    return ExecutionResult::Failure { reason: REASON_OVERFLOW };
                }
                self.balances[to_ix] = bal + amount;
                let events = vec![Event { emitter: to, tag: TAG_MINT, value: amount }];
                proof {
                    assert(events@ =~= ledger_events(
                        old(self).balances@,
                        decode_op(op.payload@),
                    ));
                }
                ExecutionResult::Success { payload: Vec::new(), events }
            },
            Some(LedgerOp::Transfer { from, to, amount }) => {
                if from >= self.balances.len() as u64 || to >= self.balances.len() as u64 {
                    return ExecutionResult::Failure { reason: REASON_UNKNOWN_ACCOUNT };
                }
                let from_ix = from as usize;
                let to_ix = to as usize;
                if self.balances[from_ix] < amount {
                    return ExecutionResult::Failure { reason: REASON_INSUFFICIENT };
                }
                if from_ix != to_ix && amount > u64::MAX - self.balances[to_ix] {
                    return ExecutionResult::Failure { reason: REASON_OVERFLOW };
                }
                let debited = self.balances[from_ix] - amount;
                self.balances[from_ix] = debited;
                let credited = self.balances[to_ix] + amount;
                self.balances[to_ix] = credited;
                let events = vec![Event { emitter: from, tag: TAG_TRANSFER, value: amount }];
                proof {
                    assert(events@ =~= ledger_events(
                        old(self).balances@,
                        decode_op(op.payload@),
                    ));
                    assert(self.balances@ =~= ledger_apply(
                        old(self).balances@,
                        decode_op(op.payload@),
                    ));
                }
                ExecutionResult::Success { payload: Vec::new(), events }
            },
            Some(LedgerOp::BalanceOf { who }) => {
                if who >= self.balances.len() as u64 {
                    return ExecutionResult::Failure { reason: REASON_UNKNOWN_ACCOUNT };
                }
                let mut payload: Vec<u8> = Vec::new();
                push_u64_le(&mut payload, self.balances[who as usize]);
                proof {
                    assert(payload@ =~= le_bytes(old(self).balances@[who as int]));
                }
                ExecutionResult::Success { payload, events: Vec::new() }
            },
        }
    }
}

} // verus!
