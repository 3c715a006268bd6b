use std::collections::HashMap;

use trickle::common::{Address, StreamError, StreamStatus};
use trickle::stream::math::{
    accrual_in_range, calculate_claimable, calculate_flow_rate, calculate_remaining,
    derive_status, effective_time,
};
use trickle::stream::storage::{config_to_info, StreamConfig};
use trickle::stream::{settlement_in_range, CancelSettlement, StreamContract};

// flow_rate 100/sec, total 10_000 — fully accrues in 100 seconds.
const FLOW_RATE: i128 = 100;
const TOTAL: i128 = 10_000;

/// A stream contract plus a token ledger standing in for the host: token
/// movements the contract reports are applied to the ledger.
struct TestContext {
    stream: StreamContract,
    now: u64,
    balances: HashMap<u64, i128>,
    factory: Address,
    sender: Address,
    recipient: Address,
    asset: Address,
    stream_address: Address,
}

impl TestContext {
    fn balance(&self, who: Address) -> i128 {
        *self.balances.get(&who.id).unwrap_or(&0)
    }

    fn transfer(&mut self, from: Address, to: Address, amount: i128) {
        let from_balance = self.balance(from);
        assert!(from_balance >= amount, "insufficient balance");
        let to_balance = self.balance(to);
        self.balances.insert(from.id, from_balance - amount);
        self.balances.insert(to.id, to_balance + amount);
    }

    fn advance(&mut self, seconds: u64) {
        self.now += seconds;
    }

    fn withdraw(&mut self, caller: Address) -> Result<i128, StreamError> {
        let r = self.stream.withdraw(caller, self.now);
        if let Ok(amount) = r {
            let (from, to) = (self.stream_address, self.recipient);
            self.transfer(from, to, amount);
        }
        r
    }

    fn cancel(&mut self, caller: Address) -> Result<CancelSettlement, StreamError> {
        let r = self.stream.cancel(caller, self.now);
        if let Ok(s) = r {
            let (escrow, recipient, sender) = (self.stream_address, self.recipient, self.sender);
            self.transfer(escrow, recipient, s.to_recipient);
            if s.refund > 0 {
                self.transfer(escrow, sender, s.refund);
            }
        }
        r
    }

    fn get_balance(&self) -> i128 {
        self.stream.get_balance(self.now).unwrap()
    }
}

fn setup() -> TestContext {
    let factory = Address::new(10);
    let sender = Address::new(11);
    let recipient = Address::new(12);
    let asset = Address::new(13);
    let stream_address = Address::new(14);
    let mut stream = StreamContract::new();
    stream
        .initialize(factory, sender, recipient, asset, FLOW_RATE, TOTAL, 0)
        .unwrap();
    let mut balances = HashMap::new();
    // Fund the stream's escrow directly (the factory does this on create).
    balances.insert(stream_address.id, TOTAL);
    TestContext { stream, now: 0, balances, factory, sender, recipient, asset, stream_address }
}

#[test]
fn test_initialize() {
    let ctx = setup();
    let info = ctx.stream.get_info().unwrap();
    assert_eq!(info.sender, ctx.sender);
    assert_eq!(info.recipient, ctx.recipient);
    assert_eq!(info.asset, ctx.asset);
    assert_eq!(info.flow_rate, FLOW_RATE);
    assert_eq!(info.total_amount, TOTAL);
    assert_eq!(info.withdrawn_amount, 0);
    assert_eq!(info.status, StreamStatus::Active);
    assert_eq!(ctx.stream.get_config().factory, ctx.factory);
}

#[test]
fn test_initialize_twice_errors() {
    let mut ctx = setup();
    let f = ctx.factory;
    assert_eq!(
        ctx.stream.initialize(f, f, f, f, 1, 1, 0),
        Err(StreamError::AlreadyInitialized)
    );
    assert_eq!(ctx.stream.get_info().unwrap().recipient, ctx.recipient);
}

#[test]
fn test_get_balance_after_creation() {
    let ctx = setup();
    assert_eq!(ctx.get_balance(), 0);
}

#[test]
fn test_withdraw_accrues() {
    let mut ctx = setup();
    ctx.advance(10);

    let recipient = ctx.recipient;
    let amount = ctx.withdraw(recipient).unwrap();
    assert_eq!(amount, 1_000);

    assert_eq!(ctx.balance(ctx.recipient), 1_000);
    assert_eq!(ctx.balance(ctx.stream_address), TOTAL - 1_000);

    let info = ctx.stream.get_info().unwrap();
    assert_eq!(info.withdrawn_amount, 1_000);
    assert_eq!(info.status, StreamStatus::Active);
}

#[test]
fn test_withdraw_caps_at_total() {
    let mut ctx = setup();
    ctx.advance(10_000);

    let recipient = ctx.recipient;
    let amount = ctx.withdraw(recipient).unwrap();
    assert_eq!(amount, TOTAL);
    assert_eq!(ctx.balance(ctx.recipient), TOTAL);
    assert_eq!(ctx.balance(ctx.stream_address), 0);
}

#[test]
fn test_withdraw_nothing_to_withdraw() {
    let mut ctx = setup();
    let recipient = ctx.recipient;
    assert_eq!(ctx.withdraw(recipient), Err(StreamError::NothingToWithdraw));
}

#[test]
fn test_withdraw_wrong_recipient() {
    let mut ctx = setup();
    let stranger = Address::new(99);
    ctx.advance(10);

    assert_eq!(ctx.withdraw(stranger), Err(StreamError::Unauthorized));
    // Nothing moved.
    assert_eq!(ctx.balance(ctx.stream_address), TOTAL);
}

#[test]
fn test_pause_freezes_accrual() {
    let mut ctx = setup();
    ctx.advance(10);
    let (sender, recipient) = (ctx.sender, ctx.recipient);
    ctx.stream.pause(sender, ctx.now).unwrap();
    assert_eq!(ctx.stream.get_info().unwrap().status, StreamStatus::Paused);

    // While paused, only the pre-pause 10 seconds have accrued.
    ctx.advance(50);
    assert_eq!(ctx.get_balance(), 1_000);

    // The recipient can still withdraw the frozen amount.
    let amount = ctx.withdraw(recipient).unwrap();
    assert_eq!(amount, 1_000);
}

#[test]
fn test_pause_resume_preserves_prepause_accrual() {
    let mut ctx = setup();
    let sender = ctx.sender;
    ctx.advance(10); // accrue 1000
    ctx.stream.pause(sender, ctx.now).unwrap();
    ctx.advance(20); // paused: nothing new accrues
    ctx.stream.resume(sender, ctx.now).unwrap();

    ctx.advance(10); // post-resume: another 1000
    assert_eq!(ctx.get_balance(), 2_000);
    assert_eq!(ctx.stream.get_info().unwrap().status, StreamStatus::Active);
}

#[test]
fn test_withdraw_while_paused_then_resume_no_double_accrual() {
    let mut ctx = setup();
    let (sender, recipient) = (ctx.sender, ctx.recipient);
    ctx.advance(10); // accrue 1000
    ctx.stream.pause(sender, ctx.now).unwrap();

    ctx.advance(5); // paused: nothing new accrues
    assert_eq!(ctx.get_balance(), 1_000); // frozen at pause

    // Withdraw the frozen amount while still paused (checkpoint bumps to paused_at).
    let amount = ctx.withdraw(recipient).unwrap();
    assert_eq!(amount, 1_000);

    // Resume: the pre-pause accrual was already paid out, so nothing is
    // double counted.
    ctx.stream.resume(sender, ctx.now).unwrap();

    ctx.advance(10); // post-resume: exactly another 1000
    assert_eq!(ctx.get_balance(), 1_000); // NOT 2000
    assert_eq!(ctx.stream.get_info().unwrap().withdrawn_amount, 1_000);

    // Clean continuation: recipient ends with 2000 in total.
    let second = ctx.withdraw(recipient).unwrap();
    assert_eq!(second, 1_000);
    assert_eq!(ctx.balance(ctx.recipient), 2_000);
}

#[test]
fn test_pause_double_pause_errors() {
    let mut ctx = setup();
    let sender = ctx.sender;
    ctx.stream.pause(sender, ctx.now).unwrap();
    assert_eq!(ctx.stream.pause(sender, ctx.now), Err(StreamError::StreamNotActive));
}

#[test]
fn test_resume_active_stream_errors() {
    let mut ctx = setup();
    let sender = ctx.sender;
    assert_eq!(ctx.stream.resume(sender, ctx.now), Err(StreamError::StreamNotPaused));
}

#[test]
fn test_resume_double_resume_errors() {
    let mut ctx = setup();
    let sender = ctx.sender;
    ctx.stream.pause(sender, ctx.now).unwrap();
    ctx.stream.resume(sender, ctx.now).unwrap();
    assert_eq!(ctx.stream.resume(sender, ctx.now), Err(StreamError::StreamNotPaused));
}

#[test]
fn test_pause_or_resume_unauthorized() {
    let mut ctx = setup();
    let stranger = Address::new(99);
    assert_eq!(ctx.stream.pause(stranger, ctx.now), Err(StreamError::Unauthorized));
    assert_eq!(ctx.stream.resume(stranger, ctx.now), Err(StreamError::Unauthorized));
}

#[test]
fn test_cancel_splits_funds() {
    let mut ctx = setup();
    let (sender, recipient) = (ctx.sender, ctx.recipient);
    ctx.advance(10); // accrued 1000, remaining escrow 10_000

    let settlement = ctx.cancel(sender).unwrap();
    assert_eq!(settlement, CancelSettlement { to_recipient: 1_000, refund: 9_000 });

    // Recipient keeps the accrued 1000; sender gets the 9000 refund.
    assert_eq!(ctx.balance(ctx.recipient), 1_000);
    assert_eq!(ctx.balance(ctx.sender), 9_000);
    assert_eq!(ctx.balance(ctx.stream_address), 0);

    let info = ctx.stream.get_info().unwrap();
    assert_eq!(info.status, StreamStatus::Cancelled);
    assert_eq!(info.withdrawn_amount, TOTAL);

    // Withdrawing from a cancelled stream fails.
    assert_eq!(ctx.withdraw(recipient), Err(StreamError::StreamNotActive));
    // Cancelling a second time fails.
    assert_eq!(ctx.cancel(sender), Err(StreamError::StreamNotActive));
}

#[test]
fn test_cancel_immediately_refunds_all() {
    let mut ctx = setup();
    let sender = ctx.sender;
    ctx.cancel(sender).unwrap();

    assert_eq!(ctx.balance(ctx.sender), TOTAL);
    assert_eq!(ctx.balance(ctx.recipient), 0);
    assert_eq!(ctx.stream.get_info().unwrap().status, StreamStatus::Cancelled);
}

#[test]
fn test_cancel_unauthorized() {
    let mut ctx = setup();
    assert_eq!(ctx.cancel(Address::new(99)), Err(StreamError::Unauthorized));
    assert_eq!(ctx.stream.get_info().unwrap().status, StreamStatus::Active);
}

#[test]
fn test_cancel_while_paused_pays_frozen_accrual() {
    let mut ctx = setup();
    let sender = ctx.sender;
    ctx.advance(30);
    ctx.stream.pause(sender, ctx.now).unwrap();
    ctx.advance(100);
    let s = ctx.cancel(sender).unwrap();
    assert_eq!(s, CancelSettlement { to_recipient: 3_000, refund: 7_000 });
}

#[test]
fn test_completed_status_after_full_vest() {
    let mut ctx = setup();
    let recipient = ctx.recipient;
    ctx.advance(10_000);
    ctx.withdraw(recipient).unwrap();

    // Derived status: fully withdrawn while still Active => Completed.
    assert_eq!(ctx.stream.get_info().unwrap().status, StreamStatus::Completed);
    // A completed stream cannot be paused or cancelled.
    let sender = ctx.sender;
    assert_eq!(ctx.stream.pause(sender, ctx.now), Err(StreamError::StreamNotActive));
    assert_eq!(ctx.cancel(sender), Err(StreamError::StreamNotActive));
}

#[test]
fn test_withdraw_twice_at_same_time_second_is_nothing() {
    let mut ctx = setup();
    let recipient = ctx.recipient;
    ctx.advance(25);
    assert_eq!(ctx.withdraw(recipient), Ok(2_500));
    assert_eq!(ctx.get_balance(), 0);
    assert_eq!(ctx.withdraw(recipient), Err(StreamError::NothingToWithdraw));
}

#[test]
fn test_update_recipient_requires_nft_contract() {
    let mut ctx = setup();
    let new_recipient = Address::new(50);
    assert_eq!(ctx.stream.update_recipient_authority(), Err(StreamError::Unauthorized));
    assert_eq!(ctx.stream.update_recipient(new_recipient), Err(StreamError::Unauthorized));

    let nft = Address::new(60);
    ctx.stream.set_nft_contract(nft);
    assert_eq!(ctx.stream.get_nft_contract(), Some(nft));
    assert_eq!(ctx.stream.update_recipient_authority(), Ok(nft));
    assert_eq!(ctx.stream.update_recipient(new_recipient), Ok(ctx.recipient));
    assert_eq!(ctx.stream.get_info().unwrap().recipient, new_recipient);

    // The new recipient now collects the accrual; the old one cannot.
    ctx.advance(1);
    let old = ctx.recipient;
    assert_eq!(ctx.stream.withdraw(old, ctx.now), Err(StreamError::Unauthorized));
    assert_eq!(ctx.stream.withdraw(new_recipient, ctx.now), Ok(100));
}

#[test]
fn test_new_stream_is_uninitialized() {
    let s = StreamContract::new();
    assert!(!s.is_initialized());
    assert_eq!(s.get_nft_contract(), None);
}

// ─── Pure math ──────────────────────────────────────────────────────────────

fn config(paused_at: Option<u64>, status: StreamStatus) -> StreamConfig {
    let a = Address::new(1);
    StreamConfig {
        factory: a,
        sender: a,
        recipient: a,
        asset: a,
        flow_rate: 7,
        total_amount: 1_000,
        withdrawn_amount: 100,
        start_time: 0,
        last_update_time: 20,
        status,
        paused_at,
    }
}

#[test]
fn test_calculate_claimable_formula() {
    let c = config(None, StreamStatus::Active);
    assert_eq!(calculate_claimable(&c, 30), 70);
    // Capped at the remaining escrow.
    assert_eq!(calculate_claimable(&c, 10_000), 900);
    // Time before the checkpoint accrues nothing.
    assert_eq!(calculate_claimable(&c, 5), 0);
    assert_eq!(calculate_remaining(&c), 900);
}

#[test]
fn test_effective_time_while_paused() {
    let c = config(Some(50), StreamStatus::Paused);
    assert_eq!(effective_time(&c, 40), 40);
    assert_eq!(effective_time(&c, 90), 50);
    assert_eq!(calculate_claimable(&c, 90), 7 * 30);
    let active = config(None, StreamStatus::Active);
    assert_eq!(effective_time(&active, 90), 90);
}

#[test]
fn test_calculate_flow_rate() {
    assert_eq!(calculate_flow_rate(10_000, 100), Ok(100));
    // Integer division truncates: 10_000 / 300 = 33.
    assert_eq!(calculate_flow_rate(10_000, 300), Ok(33));
    assert_eq!(calculate_flow_rate(0, 100), Err(StreamError::ZeroAmount));
    assert_eq!(calculate_flow_rate(-5, 0), Err(StreamError::ZeroAmount));
    assert_eq!(calculate_flow_rate(10, 0), Err(StreamError::InvalidFlowRate));
}

#[test]
fn test_derive_status() {
    let mut c = config(None, StreamStatus::Active);
    assert_eq!(derive_status(&c), StreamStatus::Active);
    c.withdrawn_amount = c.total_amount;
    assert_eq!(derive_status(&c), StreamStatus::Completed);
    c.status = StreamStatus::Cancelled;
    assert_eq!(derive_status(&c), StreamStatus::Cancelled);
    c.status = StreamStatus::Paused;
    assert_eq!(derive_status(&c), StreamStatus::Paused);
    assert_eq!(config_to_info(&c).status, StreamStatus::Paused);
}

#[test]
fn test_range_checks() {
    let c = config(None, StreamStatus::Active);
    assert!(accrual_in_range(&c, 1_000));
    assert!(settlement_in_range(&c, 1_000));
    let mut huge = c;
    huge.flow_rate = i128::MAX;
    assert!(!accrual_in_range(&huge, 1_000));
    assert!(accrual_in_range(&huge, 21));
    let mut negative = c;
    negative.flow_rate = i128::MIN;
    assert!(accrual_in_range(&negative, 21));
    assert!(!settlement_in_range(&negative, 21));
}

#[test]
fn test_cancel_is_terminal() {
    let mut ctx = setup();
    let (sender, recipient) = (ctx.sender, ctx.recipient);
    ctx.advance(10);
    ctx.stream.pause(sender, ctx.now).unwrap();
    ctx.cancel(sender).unwrap();
    let before = ctx.stream;
    ctx.advance(1_000);
    assert_eq!(ctx.withdraw(recipient), Err(StreamError::StreamNotActive));
    assert_eq!(ctx.stream.pause(sender, ctx.now), Err(StreamError::StreamNotActive));
    assert_eq!(ctx.stream.resume(sender, ctx.now), Err(StreamError::StreamNotPaused));
    assert_eq!(ctx.cancel(sender), Err(StreamError::StreamNotActive));
    assert_eq!(ctx.stream, before);
    // Nothing remains claimable or in escrow.
    assert_eq!(ctx.get_balance(), 0);
    assert_eq!(ctx.balance(ctx.stream_address), 0);
}
