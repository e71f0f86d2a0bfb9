use arbiter_kernel::behaviors::encode_address_of;
use arbiter_kernel::behaviors::encode_mint_request;
use arbiter_kernel::behaviors::Listener;
use arbiter_kernel::behaviors::TokenAdmin;
use arbiter_kernel::behaviors::TokenMinter;
use arbiter_kernel::environment::SimulationEnvironment;
use arbiter_kernel::ledger::encode_mint;
use arbiter_kernel::ledger::encode_transfer;
use arbiter_kernel::ledger::TokenLedger;
use arbiter_kernel::ledger::TAG_MINT;
use arbiter_kernel::machine::Behavior;
use arbiter_kernel::machine::MachineState;
use arbiter_kernel::machine::Reaction;
use arbiter_kernel::messager::Messager;
use arbiter_kernel::types::AgentId;
use arbiter_kernel::types::Event;
use arbiter_kernel::types::ExecutionResult;
use arbiter_kernel::types::InboundItem;
use arbiter_kernel::types::KernelError;
use arbiter_kernel::types::Message;
use arbiter_kernel::types::Operation;
use arbiter_kernel::types::To;
use arbiter_kernel::world::StepOutcome;
use arbiter_kernel::world::World;

/// One behavior type covering the agents the scenarios need.
enum Demo {
    Minter(TokenMinter),
    Listen(Listener),
    /// Halts at startup.
    HaltNow,
    /// Fails on every call with a behavior-level error.
    Broken,
}

impl Behavior for Demo {
    fn startup(&mut self, me: AgentId) -> Result<Reaction, KernelError> {
        match self {
            Demo::Minter(m) => m.startup(me),
            Demo::Listen(l) => l.startup(me),
            Demo::HaltNow => Ok(Reaction::halt()),
            Demo::Broken => Err(KernelError::BehaviorError),
        }
    }

    fn process(&mut self, item: &InboundItem) -> Result<Reaction, KernelError> {
        match self {
            Demo::Minter(m) => m.process(item),
            Demo::Listen(l) => l.process(item),
            Demo::HaltNow => Ok(Reaction::halt()),
            Demo::Broken => Err(KernelError::BehaviorError),
        }
    }

    fn on_result(&mut self, result: &ExecutionResult) -> Result<Reaction, KernelError> {
        match self {
            Demo::Minter(m) => m.on_result(result),
            Demo::Listen(l) => l.on_result(result),
            Demo::HaltNow => Ok(Reaction::halt()),
            Demo::Broken => Err(KernelError::BehaviorError),
        }
    }
}

fn is_halted(state: MachineState) -> bool {
    state == MachineState::Halted
}

/// Two agents: one mints 1000 and halts, one only listens. The minter gets
/// one success reply and halts; the listener receives the mint event in
/// execution order and never observes an environment failure.
#[test]
fn two_agents_mint_and_listen() {
    let mut world: World<Demo> = World::new(16);
    world.add_agent(1, Demo::Minter(TokenMinter::new(7, 1000))).unwrap();
    world.add_agent(2, Demo::Listen(Listener::new())).unwrap();
    let report = world.run(100);

    assert!(report.completed);
    assert!(!report.degraded);
    assert_eq!(report.halted_ok, vec![1, 2]);
    assert_eq!(report.env_failed, Vec::<AgentId>::new());

    assert!(is_halted(world.agents[0].machine.state));
    assert!(is_halted(world.agents[1].machine.state));
    assert!(!world.agents[0].machine.env_failed);
    assert!(!world.agents[1].machine.env_failed);

    // The minter observed exactly one reply: a success carrying the mint
    // event.
    match &world.agents[0].behavior {
        Demo::Minter(m) => match &m.outcome {
            Some(ExecutionResult::Success { events, .. }) => {
                assert_eq!(events.len(), 1);
                assert_eq!(events[0], Event { emitter: 7, tag: TAG_MINT, value: 1000 });
            },
            _ => panic!("the minter must observe one success"),
        },
        _ => panic!("agent 1 is the minter"),
    }

    // The listener received the mint event.
    match &world.agents[1].behavior {
        Demo::Listen(l) => {
            assert_eq!(l.seen, vec![Event { emitter: 7, tag: TAG_MINT, value: 1000 }]);
        },
        _ => panic!("agent 2 is the listener"),
    }

    // The ledger holds the minted balance.
    assert_eq!(world.ledger.balances[7], 1000);
}

/// A send to an unregistered recipient is the non-fatal `NoSuchRecipient`;
/// nothing about the bus (the sender included) changes.
#[test]
fn send_to_unregistered_is_nonfatal() {
    let mut m = Messager::new();
    m.register(1).unwrap();
    let r = m.send(Message { from: 1, to: To::Agent(99), data: vec![42] });
    assert_eq!(r, Err(KernelError::NoSuchRecipient));
    // The sender's state is unaffected: still registered, inbox untouched.
    assert_eq!(m.boxes.len(), 1);
    assert_eq!(m.boxes[0].id, 1);
    assert_eq!(m.boxes[0].inbox.len(), 0);
    assert_eq!(m.boxes[0].cursor, 0);
}

/// A registered recipient receives the message; a second registration of a
/// taken identity is `DuplicateId` and changes nothing.
#[test]
fn send_and_duplicate_register() {
    let mut m = Messager::new();
    m.register(1).unwrap();
    m.register(2).unwrap();
    assert_eq!(m.register(2), Err(KernelError::DuplicateId));
    assert_eq!(m.boxes.len(), 2);

    m.send(Message { from: 1, to: To::Agent(2), data: vec![5, 6] }).unwrap();
    let got = m.next_item(2).unwrap();
    match got {
        InboundItem::Peer(msg) => {
            assert_eq!(msg.from, 1);
            assert_eq!(msg.data, vec![5, 6]);
        },
        _ => panic!("expected the peer message"),
    }
    assert!(m.next_item(2).is_none());
}

/// The environment worker fails with one submission in flight: that agent
/// observes `EnvironmentUnavailable`, a previously halted agent is
/// unaffected, and the run report marks the run degraded.
#[test]
fn worker_failure_mid_flight() {
    let mut world: World<Demo> = World::new(16);
    world.add_agent(1, Demo::HaltNow).unwrap();
    world.add_agent(2, Demo::Minter(TokenMinter::new(3, 50))).unwrap();

    // Agent 1 halts at startup.
    assert_eq!(world.step_agent(0), StepOutcome::Progress);
    assert!(is_halted(world.agents[0].machine.state));

    // Agent 2 submits its mint; the reply is now in flight.
    assert_eq!(world.step_agent(1), StepOutcome::Progress);
    assert_eq!(world.agents[1].machine.pending.len(), 1);

    // The worker fails before executing anything.
    world.fail_environment();

    // The submitter observes the failure and halts.
    assert_eq!(world.step_agent(1), StepOutcome::Progress);
    assert!(is_halted(world.agents[1].machine.state));
    assert!(world.agents[1].machine.env_failed);

    // The previously halted agent is unaffected.
    assert!(is_halted(world.agents[0].machine.state));
    assert!(!world.agents[0].machine.env_failed);

    let report = world.report();
    assert!(report.degraded);
    assert!(report.completed);
    assert_eq!(report.halted_ok, vec![1]);
    assert_eq!(report.env_failed, vec![2]);

    // Later submissions are rejected outright.
    let mut env = SimulationEnvironment::new();
    env.fail();
    let r = env.submit(Operation { caller: 9, payload: encode_mint(0, 1) });
    assert_eq!(r.unwrap_err(), KernelError::EnvironmentUnavailable);
}

/// Operations execute in first-in first-out enqueue order: a transfer
/// enqueued after the mint that funds it succeeds.
#[test]
fn fifo_execution_order() {
    let mut env = SimulationEnvironment::new();
    let mut msgr = Messager::new();
    let mut ledger = TokenLedger::new(4);

    let t0 = env.submit(Operation { caller: 1, payload: encode_mint(0, 100) }).unwrap();
    let t1 = env.submit(Operation { caller: 2, payload: encode_transfer(0, 1, 60) }).unwrap();
    assert_eq!((t0, t1), (0, 1));

    while env.has_work() {
        let op = env.next_operation();
        let result = ledger.execute(&op);
        env.record_result(&mut msgr, result);
    }

    // Both succeeded: the transfer ran after the mint that funds it.
    match env.take_reply(t0, 1) {
        Some(Ok(ExecutionResult::Success { .. })) => {},
        _ => panic!("the mint must succeed"),
    }
    match env.take_reply(t1, 2) {
        Some(Ok(ExecutionResult::Success { .. })) => {},
        _ => panic!("the transfer must succeed, executing after the mint"),
    }
    assert_eq!(ledger.balances, vec![40, 60, 0, 0]);
}

/// Every submission yields exactly one reply, delivered only to its
/// submitter: a second collection, or a collection by anyone else, gets
/// nothing.
#[test]
fn exactly_one_reply() {
    let mut env = SimulationEnvironment::new();
    let mut msgr = Messager::new();
    let mut ledger = TokenLedger::new(2);

    let t = env.submit(Operation { caller: 5, payload: encode_mint(1, 9) }).unwrap();

    // Not ready before the worker runs.
    assert!(env.take_reply(t, 5).is_none());

    let op = env.next_operation();
    let result = ledger.execute(&op);
    env.record_result(&mut msgr, result);

    // Only the submitter can collect it.
    assert!(env.take_reply(t, 6).is_none());
    // Exactly once.
    assert!(env.take_reply(t, 5).is_some());
    assert!(env.take_reply(t, 5).is_none());
}

/// A broadcast reaches every mailbox subscribed at broadcast time, with all
/// events in identical relative order across recipients.
#[test]
fn broadcast_completeness_and_order() {
    let mut m = Messager::new();
    m.register(1).unwrap();
    m.register(2).unwrap();

    let events = vec![
        Event { emitter: 0, tag: 1, value: 10 },
        Event { emitter: 0, tag: 2, value: 20 },
        Event { emitter: 3, tag: 1, value: 30 },
    ];
    m.broadcast(&events);

    for id in [1u64, 2u64] {
        for expected in &events {
            match m.next_item(id).unwrap() {
                InboundItem::Engine(e) => assert_eq!(e, *expected),
                _ => panic!("expected an engine event"),
            }
        }
        assert!(m.next_item(id).is_none());
    }
}

/// A halted agent never runs again: stepping it changes nothing, whatever
/// has arrived since.
#[test]
fn halt_is_irreversible() {
    let mut world: World<Demo> = World::new(4);
    world.add_agent(1, Demo::HaltNow).unwrap();
    assert_eq!(world.step_agent(0), StepOutcome::Progress);
    assert!(is_halted(world.agents[0].machine.state));

    // Deliver more input to its mailbox.
    world.messager.broadcast(&vec![Event { emitter: 0, tag: 1, value: 1 }]);
    world.messager.send(Message { from: 1, to: To::Agent(1), data: vec![1] }).unwrap();

    for _ in 0..3 {
        assert_eq!(world.step_agent(0), StepOutcome::Idle);
        assert!(is_halted(world.agents[0].machine.state));
    }
}

/// A behavior failure in one agent is contained: the other agent's results
/// and halting are identical to a run without the broken agent.
#[test]
fn behavior_error_isolation() {
    // Run with the broken agent present.
    let mut world: World<Demo> = World::new(8);
    world.add_agent(1, Demo::Broken).unwrap();
    world.add_agent(2, Demo::Minter(TokenMinter::new(4, 77))).unwrap();
    let report = world.run(100);
    assert!(!report.degraded);
    assert!(is_halted(world.agents[1].machine.state));
    assert!(!world.agents[1].machine.env_failed);
    let outcome_with_broken = match &world.agents[1].behavior {
        Demo::Minter(m) => match &m.outcome {
            Some(ExecutionResult::Success { events, .. }) => events.clone(),
            _ => panic!("the minter must observe one success"),
        },
        _ => panic!("agent 2 is the minter"),
    };

    // Run without it.
    let mut quiet: World<Demo> = World::new(8);
    quiet.add_agent(2, Demo::Minter(TokenMinter::new(4, 77))).unwrap();
    let quiet_report = quiet.run(100);
    assert!(quiet_report.completed);
    let outcome_alone = match &quiet.agents[0].behavior {
        Demo::Minter(m) => match &m.outcome {
            Some(ExecutionResult::Success { events, .. }) => events.clone(),
            _ => panic!("the minter must observe one success"),
        },
        _ => panic!("the only agent is the minter"),
    };

    assert_eq!(outcome_with_broken, outcome_alone);
    assert_eq!(world.ledger.balances, quiet.ledger.balances);
}

/// The agent set is fixed once the run has started.
#[test]
fn add_agent_after_run_is_rejected() {
    let mut world: World<Demo> = World::new(2);
    world.add_agent(1, Demo::HaltNow).unwrap();
    let _ = world.run(10);
    let r = world.add_agent(2, Demo::HaltNow);
    assert_eq!(r, Err(KernelError::AlreadyRunning));
    assert_eq!(world.agents.len(), 1);
}

/// Consumption tracking: delivered items are pending until consumed.
#[test]
fn unconsumed_items_are_tracked() {
    let mut m = Messager::new();
    m.register(1).unwrap();
    assert!(!m.has_unconsumed(1));
    m.broadcast(&vec![Event { emitter: 0, tag: 1, value: 1 }]);
    assert!(m.has_unconsumed(1));
    assert!(m.next_item(1).is_some());
    assert!(!m.has_unconsumed(1));
    assert!(!m.has_unconsumed(99));
}

/// The execution trace depends only on the enqueue order, not on when the
/// worker runs relative to the submitters: two different interleavings of
/// the same submissions leave identical ledgers.
#[test]
fn interleavings_agree_with_enqueue_order() {
    let ops = |caller: AgentId| {
        vec![
            Operation { caller, payload: encode_mint(0, 10) },
            Operation { caller, payload: encode_transfer(0, 1, 10) },
            Operation { caller, payload: encode_mint(1, 5) },
        ]
    };

    // Interleaving one: the worker runs only after every submission.
    let mut env_a = SimulationEnvironment::new();
    let mut msgr_a = Messager::new();
    let mut ledger_a = TokenLedger::new(2);
    for o in ops(1) {
        env_a.submit(o).unwrap();
    }
    while env_a.has_work() {
        let o = env_a.next_operation();
        let r = ledger_a.execute(&o);
        env_a.record_result(&mut msgr_a, r);
    }

    // Interleaving two: the worker runs after each submission.
    let mut env_b = SimulationEnvironment::new();
    let mut msgr_b = Messager::new();
    let mut ledger_b = TokenLedger::new(2);
    for o in ops(1) {
        env_b.submit(o).unwrap();
        while env_b.has_work() {
            let o2 = env_b.next_operation();
            let r = ledger_b.execute(&o2);
            env_b.record_result(&mut msgr_b, r);
        }
    }

    assert_eq!(ledger_a.balances, ledger_b.balances);
    assert_eq!(ledger_a.balances, vec![0, 15]);
    assert_eq!(env_a.executed, 3);
    assert_eq!(env_b.executed, 3);
}

/// A token administrator serves peer queries: it replies with the token's
/// address, submits requested mints, halts once its quota is served, and a
/// message it cannot decode is a contained behavior failure.
#[test]
fn token_admin_serves_queries() {
    enum Minting {
        Admin(TokenAdmin),
        /// Asks for the address and one mint, then halts on the reply.
        Requester { admin: AgentId, address: Option<Vec<u8>> },
    }

    impl Behavior for Minting {
        fn startup(&mut self, _me: AgentId) -> Result<Reaction, KernelError> {
            match self {
                Minting::Admin(a) => a.startup(_me),
                Minting::Requester { admin, .. } => Ok(Reaction {
                    actions: vec![
                        arbiter_kernel::machine::Action::Send(
                            To::Agent(*admin),
                            encode_address_of(),
                        ),
                        arbiter_kernel::machine::Action::Send(
                            To::Agent(*admin),
                            encode_mint_request(9, 250),
                        ),
                    ],
                    halt: false,
                }),
            }
        }

        fn process(&mut self, item: &InboundItem) -> Result<Reaction, KernelError> {
            match self {
                Minting::Admin(a) => a.process(item),
                Minting::Requester { address, .. } => {
                    if let InboundItem::Peer(msg) = item {
                        *address = Some(msg.data.clone());
                        return Ok(Reaction { actions: vec![], halt: true });
                    }
                    Ok(Reaction { actions: vec![], halt: false })
                },
            }
        }

        fn on_result(&mut self, result: &ExecutionResult) -> Result<Reaction, KernelError> {
            match self {
                Minting::Admin(a) => a.on_result(result),
                Minting::Requester { .. } => Ok(Reaction { actions: vec![], halt: false }),
            }
        }
    }

    let mut world: World<Minting> = World::new(16);
    world.add_agent(10, Minting::Admin(TokenAdmin::new(3, 1))).unwrap();
    world
        .add_agent(11, Minting::Requester { admin: 10, address: None })
        .unwrap();
    let report = world.run(100);

    assert!(report.completed);
    assert!(!report.degraded);

    // The requester received the token's address (3, little-endian).
    match &world.agents[1].behavior {
        Minting::Requester { address, .. } => {
            assert_eq!(address.as_deref(), Some(&[3, 0, 0, 0, 0, 0, 0, 0][..]));
        },
        _ => panic!("agent 11 is the requester"),
    }

    // The admin performed the requested mint and halted after its quota.
    assert_eq!(world.ledger.balances[9], 250);
    assert!(is_halted(world.agents[0].machine.state));

    // A message the admin cannot decode is a contained behavior failure.
    let mut broken_world: World<Minting> = World::new(4);
    broken_world.add_agent(10, Minting::Admin(TokenAdmin::new(3, 1))).unwrap();
    assert_eq!(broken_world.step_agent(0), StepOutcome::Progress);
    broken_world
        .messager
        .send(Message { from: 99, to: To::Agent(10), data: vec![7, 7, 7] })
        .unwrap();
    assert_eq!(broken_world.step_agent(0), StepOutcome::BehaviorFailed);
    assert!(!is_halted(broken_world.agents[0].machine.state));
}

/// Per-recipient delivery preserves each source's own order: one sender's
/// messages and one broadcast's events arrive in the order they were sent.
#[test]
fn per_source_order_is_preserved() {
    let mut m = Messager::new();
    m.register(1).unwrap();
    m.register(2).unwrap();
    m.send(Message { from: 1, to: To::Agent(2), data: vec![10] }).unwrap();
    m.send(Message { from: 1, to: To::All, data: vec![11] }).unwrap();
    m.broadcast(&vec![
        Event { emitter: 5, tag: 1, value: 1 },
        Event { emitter: 5, tag: 1, value: 2 },
    ]);
    m.send(Message { from: 1, to: To::Agent(2), data: vec![12] }).unwrap();

    let mut data_seen: Vec<Vec<u8>> = Vec::new();
    let mut values_seen: Vec<u64> = Vec::new();
    while let Some(item) = m.next_item(2) {
        match item {
            InboundItem::Peer(msg) => data_seen.push(msg.data),
            InboundItem::Engine(e) => values_seen.push(e.value),
        }
    }
    assert_eq!(data_seen, vec![vec![10], vec![11], vec![12]]);
    assert_eq!(values_seen, vec![1, 2]);
}
