use std::collections::HashMap;

use trickle::common::{Address, StreamError, StreamStatus};
use trickle::factory::deploy::{deploy_outcome, deploy_salt, InitOutcome};
use trickle::factory::FactoryContract;
use trickle::stream::StreamContract;

// amount 10_000 over 100s → flow_rate 100/sec, fully streams out in 100s.
const AMOUNT: i128 = 10_000;
const DURATION: u32 = 100;
const FLOW_RATE: i128 = 100;

/// A factory plus a stand-in for the host: deployed stream contracts keyed
/// by their address, a token ledger and the ledger time.
struct TestContext {
    factory: FactoryContract,
    factory_address: Address,
    streams: HashMap<u64, StreamContract>,
    balances: HashMap<u64, i128>,
    now: u64,
    sender: Address,
    recipient: Address,
    token_address: Address,
}

impl TestContext {
    fn balance(&self, who: Address) -> i128 {
        *self.balances.get(&who.id).unwrap_or(&0)
    }

    fn transfer(&mut self, from: Address, to: Address, amount: i128) -> Result<(), ()> {
        let from_balance = self.balance(from);
        if from_balance < amount {
            return Err(());
        }
        let to_balance = self.balance(to);
        self.balances.insert(from.id, from_balance - amount);
        self.balances.insert(to.id, to_balance + amount);
        Ok(())
    }

    /// The host side of `create_stream`: validate and plan, deploy and
    /// initialize the stream contract, move the escrow, then register.
    /// A failed step aborts the whole call, leaving the state as it was.
    fn create_stream_for(&mut self, recipient: Address, amount: i128, duration: u32) -> Result<Address, StreamError> {
        let plan = self.factory.create_stream(
            self.sender,
            recipient,
            self.token_address,
            amount,
            duration,
            self.now,
        )?;
        // Deterministic address: factory address and salt.
        let salt = plan.salt;
        let stream_address = Address::new(
            1_000_000 * self.factory_address.id + u32::from_be_bytes([salt[28], salt[29], salt[30], salt[31]]) as u64,
        );
        let mut stream = StreamContract::new();
        let info = plan.info;
        let outcome = match stream.initialize(
            self.factory_address,
            info.sender,
            info.recipient,
            info.asset,
            info.flow_rate,
            info.total_amount,
            info.start_time,
        ) {
            Ok(()) => InitOutcome::Initialized,
            Err(e) => InitOutcome::ContractError(e),
        };
        let stream_address = deploy_outcome(stream_address, outcome)?;
        if self.transfer(self.sender, stream_address, amount).is_err() {
            // The host reverts the whole transaction.
            return Err(StreamError::InsufficientBalance);
        }
        self.streams.insert(stream_address.id, stream);
        self.factory.register_stream(plan);
        Ok(stream_address)
    }

    fn create_stream(&mut self) -> Address {
        let recipient = self.recipient;
        self.create_stream_for(recipient, AMOUNT, DURATION).unwrap()
    }
}

fn setup_funded(funds: i128) -> TestContext {
    let admin = Address::new(1);
    let sender = Address::new(2);
    let recipient = Address::new(3);
    let token_address = Address::new(4);
    let mut factory = FactoryContract::new();
    factory.initialize(admin, [7u8; 32]);
    let mut balances = HashMap::new();
    balances.insert(sender.id, funds);
    TestContext {
        factory,
        factory_address: Address::new(5),
        streams: HashMap::new(),
        balances,
        now: 1_000,
        sender,
        recipient,
        token_address,
    }
}

fn setup() -> TestContext {
    // Fund the sender generously to cover stream creation plus escrow.
    setup_funded(AMOUNT * 10)
}

#[test]
fn test_test_initialize() {
    let ctx = setup();
    // Before any stream is created nothing is registered.
    let empty = ctx.factory.get_streams_by_sender(ctx.sender);
    assert_eq!(empty.len(), 0);
    assert_eq!(ctx.factory.get_stream_count(), 0);
    assert_eq!(ctx.factory.get_admin(), Address::new(1));
    assert_eq!(ctx.factory.get_stream_wasm_hash(), [7u8; 32]);
}

#[test]
fn test_get_streams_empty() {
    let ctx = setup();
    assert_eq!(ctx.factory.get_streams_by_sender(ctx.sender).len(), 0);
    assert_eq!(ctx.factory.get_streams_by_recipient(ctx.recipient).len(), 0);
}

#[test]
fn test_get_stream_not_found() {
    let ctx = setup();
    assert_eq!(ctx.factory.get_stream(0), Err(StreamError::StreamNotFound));
}

#[test]
fn test_create_stream_deploys_and_funds_escrow() {
    let mut ctx = setup();
    let start_time = ctx.now;
    let sender_balance_before = ctx.balance(ctx.sender);

    let stream_address = ctx.create_stream();

    // Sender debited, and the full amount now sits in the stream's escrow.
    assert_eq!(ctx.balance(ctx.sender), sender_balance_before - AMOUNT);
    assert_eq!(ctx.balance(stream_address), AMOUNT);

    // Registry metadata is cached correctly.
    let info = ctx.factory.get_stream(0).unwrap();
    assert_eq!(info.sender, ctx.sender);
    assert_eq!(info.recipient, ctx.recipient);
    assert_eq!(info.asset, ctx.token_address);
    assert_eq!(info.flow_rate, FLOW_RATE);
    assert_eq!(info.total_amount, AMOUNT);
    assert_eq!(info.withdrawn_amount, 0);
    assert_eq!(info.start_time, start_time);
    assert_eq!(info.status, StreamStatus::Active);

    // Indexes: the new stream is listed for both sides.
    assert_eq!(ctx.factory.get_streams_by_sender(ctx.sender), vec![0]);
    assert_eq!(ctx.factory.get_streams_by_recipient(ctx.recipient), vec![0]);
}

#[test]
fn test_deployed_stream_is_initialized_and_streamable() {
    let mut ctx = setup();
    let stream_address = ctx.create_stream();

    let now = ctx.now;
    let stream = ctx.streams.get_mut(&stream_address.id).unwrap();
    let info = stream.get_info().unwrap();
    assert_eq!(info.sender, ctx.sender);
    assert_eq!(info.recipient, ctx.recipient);
    assert_eq!(info.total_amount, AMOUNT);
    assert_eq!(info.status, StreamStatus::Active);
    assert_eq!(stream.get_config().factory, ctx.factory_address);

    // Advance 10 seconds → 1_000 streamed and withdrawable by the recipient.
    assert_eq!(stream.get_balance(now + 10), Ok(1_000));
    let withdrawn = stream.withdraw(ctx.recipient, now + 10).unwrap();
    assert_eq!(withdrawn, 1_000);
    let recipient = ctx.recipient;
    ctx.transfer(stream_address, recipient, withdrawn).unwrap();
    assert_eq!(ctx.balance(ctx.recipient), 1_000);
}

#[test]
fn test_create_stream_zero_amount_errors() {
    let mut ctx = setup();
    let recipient = ctx.recipient;
    assert_eq!(ctx.create_stream_for(recipient, 0, DURATION), Err(StreamError::ZeroAmount));
    // Nothing was deployed in the failed attempt.
    assert_eq!(ctx.factory.get_stream(0), Err(StreamError::StreamNotFound));
}

#[test]
fn test_create_stream_zero_duration_errors() {
    let mut ctx = setup();
    let recipient = ctx.recipient;
    assert_eq!(ctx.create_stream_for(recipient, AMOUNT, 0), Err(StreamError::InvalidFlowRate));
    assert_eq!(ctx.factory.get_stream(0), Err(StreamError::StreamNotFound));
}

#[test]
fn test_raw_initialize_call_decodes_stream_error() {
    let mut ctx = setup();
    let stream_address = ctx.create_stream();

    // Re-running `initialize` on the now-initialized stream reports the
    // stream's own error, and the deployment result carries it through.
    let stream = ctx.streams.get_mut(&stream_address.id).unwrap();
    let a = Address::new(77);
    let result = stream.initialize(a, a, a, a, FLOW_RATE, AMOUNT, 0);
    assert_eq!(result, Err(StreamError::AlreadyInitialized));
    assert_eq!(
        deploy_outcome(stream_address, InitOutcome::ContractError(StreamError::AlreadyInitialized)),
        Err(StreamError::AlreadyInitialized)
    );
}

#[test]
fn test_deploy_outcome_maps_host_failures() {
    let a = Address::new(9);
    assert_eq!(deploy_outcome(a, InitOutcome::Initialized), Ok(a));
    assert_eq!(deploy_outcome(a, InitOutcome::UndecodableReturn), Err(StreamError::Unauthorized));
    assert_eq!(deploy_outcome(a, InitOutcome::HostError), Err(StreamError::Unauthorized));
}

#[test]
fn test_deploy_salt_is_big_endian_stream_id() {
    let salt = deploy_salt(0x0102_0304);
    assert_eq!(&salt[..28], &[0u8; 28][..]);
    assert_eq!(&salt[28..], &[1u8, 2, 3, 4][..]);
    assert_eq!(deploy_salt(0), [0u8; 32]);
    assert_ne!(deploy_salt(1), deploy_salt(256));
}

#[test]
fn test_create_stream_transfer_failure_aborts_whole_call() {
    // Sender is funded with less than the requested amount, so the escrow
    // transfer fails after deploy + initialize succeed, and nothing is
    // registered.
    let mut ctx = setup_funded(AMOUNT / 2);
    let recipient = ctx.recipient;
    let created = ctx.create_stream_for(recipient, AMOUNT, DURATION);
    assert!(created.is_err());

    assert_eq!(ctx.balance(ctx.sender), AMOUNT / 2);
    assert_eq!(ctx.factory.get_stream(0), Err(StreamError::StreamNotFound));
    assert_eq!(ctx.factory.get_streams_by_sender(ctx.sender).len(), 0);
    assert_eq!(ctx.factory.get_streams_by_recipient(ctx.recipient).len(), 0);
}

#[test]
fn test_multiple_streams_index_independently() {
    let mut ctx = setup();
    let other_recipient = Address::new(42);

    let s0 = ctx.create_stream();
    ctx.create_stream_for(other_recipient, AMOUNT, DURATION).unwrap();
    let s2 = ctx.create_stream();

    let by_sender = ctx.factory.get_streams_by_sender(ctx.sender);
    assert_eq!(by_sender, vec![0, 1, 2]);
    assert_eq!(by_sender.len(), 3);

    // The middle stream belongs to the other recipient.
    assert_eq!(ctx.factory.get_streams_by_recipient(other_recipient), vec![1]);
    assert_eq!(ctx.factory.get_streams_by_recipient(ctx.recipient), vec![0, 2]);
    let info1 = ctx.factory.get_stream(1).unwrap();
    assert_eq!(info1.recipient, other_recipient);

    // Streams get distinct deterministic addresses for distinct IDs.
    assert_ne!(s0, s2);
    assert_eq!(ctx.balance(s0), AMOUNT);
    assert_eq!(ctx.balance(s2), AMOUNT);
    assert_eq!(ctx.factory.get_stream_count(), 3);
}

#[test]
fn test_create_stream_plan() {
    let ctx = setup();
    let plan = ctx
        .factory
        .create_stream(ctx.sender, ctx.recipient, ctx.token_address, 10_000, 300, 77)
        .unwrap();
    assert_eq!(plan.stream_id, 0);
    assert_eq!(plan.wasm_hash, [7u8; 32]);
    assert_eq!(plan.salt, deploy_salt(0));
    // 10_000 / 300 truncates to 33.
    assert_eq!(plan.info.flow_rate, 33);
    assert_eq!(plan.info.start_time, 77);
    assert_eq!(plan.info.last_update_time, 77);
}

#[test]
fn test_create_stream_to_self_errors() {
    let mut ctx = setup();
    let sender = ctx.sender;
    let balance_before = ctx.balance(sender);
    assert_eq!(ctx.create_stream_for(sender, AMOUNT, DURATION), Err(StreamError::Unauthorized));
    // Nothing was planned, deployed, moved or registered.
    assert_eq!(ctx.balance(sender), balance_before);
    assert_eq!(ctx.factory.get_stream(0), Err(StreamError::StreamNotFound));
    assert_eq!(ctx.factory.get_stream_count(), 0);
    assert_eq!(ctx.factory.get_streams_by_sender(sender).len(), 0);
    // The amount and duration checks come first.
    assert_eq!(ctx.create_stream_for(sender, 0, DURATION), Err(StreamError::ZeroAmount));
    assert_eq!(ctx.create_stream_for(sender, AMOUNT, 0), Err(StreamError::InvalidFlowRate));
}
