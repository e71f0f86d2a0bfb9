use arbiter_kernel::events::filter_events;
use arbiter_kernel::events::EventStream;
use arbiter_kernel::events::SimulationEventFilter;
use arbiter_kernel::ledger::decode_payload;
use arbiter_kernel::ledger::encode_balance_of;
use arbiter_kernel::ledger::encode_mint;
use arbiter_kernel::ledger::encode_transfer;
use arbiter_kernel::ledger::LedgerOp;
use arbiter_kernel::ledger::TokenLedger;
use arbiter_kernel::ledger::REASON_INSUFFICIENT;
use arbiter_kernel::ledger::REASON_MALFORMED;
use arbiter_kernel::ledger::REASON_OVERFLOW;
use arbiter_kernel::ledger::REASON_UNKNOWN_ACCOUNT;
use arbiter_kernel::ledger::TAG_MINT;
use arbiter_kernel::ledger::TAG_TRANSFER;
use arbiter_kernel::math::math_bytecode_vec;
use arbiter_kernel::math::math_deployed_bytecode_vec;
use arbiter_kernel::math::BindingError;
use arbiter_kernel::math::Math;
use arbiter_kernel::types::Event;
use arbiter_kernel::types::ExecutionResult;
use arbiter_kernel::types::Operation;

fn op(payload: Vec<u8>) -> Operation {
    Operation { caller: 1, payload }
}

#[test]
fn payload_codec_round_trip() {
    assert_eq!(
        decode_payload(&encode_mint(7, 1000)),
        Some(LedgerOp::Mint { to: 7, amount: 1000 })
    );
    assert_eq!(
        decode_payload(&encode_transfer(3, 4, u64::MAX)),
        Some(LedgerOp::Transfer { from: 3, to: 4, amount: u64::MAX })
    );
    assert_eq!(
        decode_payload(&encode_balance_of(9)),
        Some(LedgerOp::BalanceOf { who: 9 })
    );
    // The exact little-endian layout of a mint of 0x0102 to account 1.
    let bytes = encode_mint(1, 0x0102);
    assert_eq!(bytes.len(), 17);
    assert_eq!(bytes[0], 0);
    assert_eq!(&bytes[1..9], &[1, 0, 0, 0, 0, 0, 0, 0]);
    assert_eq!(&bytes[9..17], &[2, 1, 0, 0, 0, 0, 0, 0]);
    // Garbage does not decode.
    assert_eq!(decode_payload(&vec![]), None);
    assert_eq!(decode_payload(&vec![9; 17]), None);
    assert_eq!(decode_payload(&vec![0; 16]), None);
}

#[test]
fn mint_and_transfer_update_balances() {
    let mut l = TokenLedger::new(3);
    match l.execute(&op(encode_mint(0, 500))) {
        ExecutionResult::Success { payload, events } => {
            assert!(payload.is_empty());
            assert_eq!(events, vec![Event { emitter: 0, tag: TAG_MINT, value: 500 }]);
        },
        _ => panic!("mint must succeed"),
    }
    match l.execute(&op(encode_transfer(0, 2, 123))) {
        ExecutionResult::Success { events, .. } => {
            assert_eq!(events, vec![Event { emitter: 0, tag: TAG_TRANSFER, value: 123 }]);
        },
        _ => panic!("transfer must succeed"),
    }
    assert_eq!(l.balances, vec![377, 0, 123]);

    // A balance query returns the balance's little-endian bytes and emits
    // nothing.
    match l.execute(&op(encode_balance_of(2))) {
        ExecutionResult::Success { payload, events } => {
            assert_eq!(payload, vec![123, 0, 0, 0, 0, 0, 0, 0]);
            assert!(events.is_empty());
        },
        _ => panic!("balance query must succeed"),
    }
    // A self transfer leaves the balance unchanged.
    match l.execute(&op(encode_transfer(2, 2, 100))) {
        ExecutionResult::Success { .. } => {},
        _ => panic!("self transfer must succeed"),
    }
    assert_eq!(l.balances, vec![377, 0, 123]);
}

#[test]
fn each_failure_reason() {
    let mut l = TokenLedger::new(2);
    let reason = |r: ExecutionResult| match r {
        ExecutionResult::Failure { reason } => reason,
        _ => panic!("expected a failure"),
    };
    assert_eq!(reason(l.execute(&op(vec![7, 7]))), REASON_MALFORMED);
    assert_eq!(reason(l.execute(&op(encode_mint(5, 1)))), REASON_UNKNOWN_ACCOUNT);
    assert_eq!(reason(l.execute(&op(encode_transfer(0, 9, 1)))), REASON_UNKNOWN_ACCOUNT);
    assert_eq!(reason(l.execute(&op(encode_transfer(0, 1, 1)))), REASON_INSUFFICIENT);
    l.execute(&op(encode_mint(0, u64::MAX)));
    assert_eq!(reason(l.execute(&op(encode_mint(0, 1)))), REASON_OVERFLOW);
    l.execute(&op(encode_mint(1, 10)));
    assert_eq!(reason(l.execute(&op(encode_transfer(1, 0, 5)))), REASON_OVERFLOW);
    // Failures never move balances.
    assert_eq!(l.balances, vec![u64::MAX, 10]);
}

#[test]
fn execution_is_deterministic() {
    let mut a = TokenLedger::new(4);
    let mut b = TokenLedger::new(4);
    let payloads = vec![encode_mint(1, 10), encode_transfer(1, 2, 4), encode_balance_of(2)];
    for p in &payloads {
        let ra = a.execute(&op(p.clone()));
        let rb = b.execute(&op(p.clone()));
        match (ra, rb) {
            (
                ExecutionResult::Success { payload: pa, events: ea },
                ExecutionResult::Success { payload: pb, events: eb },
            ) => {
                assert_eq!(pa, pb);
                assert_eq!(ea, eb);
            },
            _ => panic!("identical state and operation must give identical results"),
        }
    }
    assert_eq!(a.balances, b.balances);
}

#[test]
fn filters_select_matching_events_in_order() {
    let filters = vec![
        SimulationEventFilter { emitter: 1, tag: TAG_MINT },
        SimulationEventFilter { emitter: 2, tag: TAG_TRANSFER },
    ];
    let logs = vec![
        Event { emitter: 1, tag: TAG_MINT, value: 5 },
        Event { emitter: 9, tag: TAG_MINT, value: 6 },
        Event { emitter: 2, tag: TAG_TRANSFER, value: 7 },
        Event { emitter: 1, tag: TAG_TRANSFER, value: 8 },
    ];
    let kept = filter_events(&filters, &logs);
    assert_eq!(
        kept,
        vec![
            Event { emitter: 1, tag: TAG_MINT, value: 5 },
            Event { emitter: 2, tag: TAG_TRANSFER, value: 7 },
        ]
    );

    // A stream hands over every matching event of the batch, in broadcast
    // order — not only the first.
    let stream = EventStream::new(filters);
    assert_eq!(stream.next(&logs), kept);
    let unmatched = vec![Event { emitter: 9, tag: 9, value: 9 }];
    assert_eq!(stream.next(&unmatched), Vec::<Event>::new());
}

/// Two subscribers with the same filters observe the same events, in the
/// same order, on every batch.
#[test]
fn subscribers_with_same_filters_agree() {
    let filters = vec![SimulationEventFilter { emitter: 4, tag: TAG_MINT }];
    let a = EventStream::new(filters.clone());
    let b = EventStream::new(filters);
    let batch = vec![
        Event { emitter: 4, tag: TAG_MINT, value: 1 },
        Event { emitter: 5, tag: TAG_MINT, value: 2 },
        Event { emitter: 4, tag: TAG_MINT, value: 3 },
    ];
    let seen_a = a.next(&batch);
    let seen_b = b.next(&batch);
    assert_eq!(seen_a, seen_b);
    // Both matching events arrive, in emission order.
    assert_eq!(
        seen_a,
        vec![
            Event { emitter: 4, tag: TAG_MINT, value: 1 },
            Event { emitter: 4, tag: TAG_MINT, value: 3 },
        ]
    );
}

#[test]
fn math_binding() {
    let m = Math::new(42);
    assert_eq!(m.address, 42);

    let code = math_bytecode_vec();
    assert_eq!(code.len(), 120);
    assert_eq!(&code[0..4], &[96, 85, 96, 35]);
    let runtime = math_deployed_bytecode_vec();
    assert_eq!(runtime.len(), 85);

    let deployer = Math::deploy(Vec::new()).unwrap();
    assert_eq!(deployer.code, code);

    // The contract declares no constructor: arguments are rejected.
    assert!(matches!(
        Math::deploy(vec![1, 2, 3]),
        Err(BindingError::UnexpectedConstructorArguments)
    ));
}
