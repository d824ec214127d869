use social_linking::send_token_to_unlinked;
use social_linking::Address;
use social_linking::Config;
use social_linking::ErrorCode;
use social_linking::Failure;
use social_linking::PaymentRecord;
use social_linking::PendingClaim;
use social_linking::SendTokenToUnlinked;
use social_linking::TokenAccount;

fn key(tag: u8) -> Address {
    Address::new([tag; 32])
}

fn accounts(balance: u64) -> SendTokenToUnlinked {
    SendTokenToUnlinked {
        sender: key(1),
        sender_token_account: TokenAccount { mint: key(9), owner: key(1), amount: balance },
        escrow_token_account: TokenAccount { mint: key(9), owner: key(7), amount: 0 },
        pending_claim: PendingClaim::default(),
        payment_record: PaymentRecord::default(),
        config: Config { admin: key(5), bump: 254 },
        authority: key(7),
        pending_claim_bump: 253,
        payment_record_bump: 252,
        unix_timestamp: 1_700_000_000,
    }
}

fn next_payment(ctx: &mut SendTokenToUnlinked, bump: u8, now: i64) {
    ctx.payment_record = PaymentRecord::default();
    ctx.payment_record_bump = bump;
    ctx.unix_timestamp = now;
}

#[test]
fn first_payment_opens_a_cycle() {
    let mut ctx = accounts(1_000);
    assert_eq!(send_token_to_unlinked(&mut ctx, "alice".to_string(), 100, 0), Ok(()));
    assert_eq!(ctx.sender_token_account.amount, 900);
    assert_eq!(ctx.escrow_token_account.amount, 100);
    assert_eq!(
        ctx.pending_claim,
        PendingClaim {
            social_handle: "alice".to_string(),
            amount: 100,
            claimed: false,
            payment_count: 1,
            bump: 253,
        }
    );
    assert_eq!(
        ctx.payment_record,
        PaymentRecord {
            sender: key(1),
            social_handle: "alice".to_string(),
            amount: 100,
            timestamp: 1_700_000_000,
            claimed: false,
            bump: 252,
        }
    );
}

#[test]
fn payments_of_100_and_50_add_up_to_150() {
    let mut ctx = accounts(1_000);
    assert_eq!(send_token_to_unlinked(&mut ctx, "alice".to_string(), 100, 0), Ok(()));
    let first = ctx.payment_record.clone();
    next_payment(&mut ctx, 251, 1_700_000_060);
    assert_eq!(send_token_to_unlinked(&mut ctx, "alice".to_string(), 50, 1), Ok(()));
    assert_eq!(ctx.pending_claim.amount, 150);
    assert_eq!(ctx.pending_claim.payment_count, 2);
    assert!(!ctx.pending_claim.claimed);
    assert_eq!(ctx.pending_claim.bump, 253);
    assert_eq!(ctx.sender_token_account.amount, 850);
    assert_eq!(ctx.escrow_token_account.amount, 150);
    assert_eq!(first.amount, 100);
    assert_eq!(ctx.payment_record.amount, 50);
    assert_eq!(ctx.payment_record.timestamp, 1_700_000_060);
    assert_ne!(first, ctx.payment_record);
}

#[test]
fn payment_after_a_claim_starts_from_nothing() {
    let mut ctx = accounts(1_000);
    ctx.pending_claim = PendingClaim {
        social_handle: "alice".to_string(),
        amount: 150,
        claimed: true,
        payment_count: 2,
        bump: 200,
    };
    assert_eq!(send_token_to_unlinked(&mut ctx, "alice".to_string(), 30, 2), Ok(()));
    assert_eq!(
        ctx.pending_claim,
        PendingClaim {
            social_handle: "alice".to_string(),
            amount: 30,
            claimed: false,
            payment_count: 1,
            bump: 253,
        }
    );
}

#[test]
fn payment_record_is_written_unclaimed() {
    let mut ctx = accounts(10);
    ctx.payment_record.claimed = true;
    assert_eq!(send_token_to_unlinked(&mut ctx, "bob".to_string(), 10, 4), Ok(()));
    assert!(!ctx.payment_record.claimed);
    assert_eq!(ctx.sender_token_account.amount, 0);
}

#[test]
fn zero_amount_is_invalid() {
    let mut ctx = accounts(1_000);
    let before = accounts(1_000);
    assert_eq!(
        send_token_to_unlinked(&mut ctx, "alice".to_string(), 0, 0),
        Err(Failure::Program(ErrorCode::InvalidAmount))
    );
    assert_eq!(ctx, before);
}

#[test]
fn handle_of_31_bytes_is_too_long_for_a_payment() {
    let mut ctx = accounts(1_000);
    let before = accounts(1_000);
    assert_eq!(
        send_token_to_unlinked(&mut ctx, "a".repeat(31), 100, 0),
        Err(Failure::Program(ErrorCode::HandleTooLong))
    );
    assert_eq!(ctx, before);
}

#[test]
fn handle_of_30_bytes_is_paid() {
    let mut ctx = accounts(1_000);
    assert_eq!(send_token_to_unlinked(&mut ctx, "a".repeat(30), 100, 0), Ok(()));
    assert_eq!(ctx.pending_claim.social_handle, "a".repeat(30));
}

#[test]
fn handle_is_measured_in_bytes() {
    let mut ctx = accounts(1_000);
    let handle = "é".repeat(16);
    assert_eq!(handle.chars().count(), 16);
    assert_eq!(handle.len(), 32);
    assert_eq!(
        send_token_to_unlinked(&mut ctx, handle, 100, 0),
        Err(Failure::Program(ErrorCode::HandleTooLong))
    );
    assert_eq!(send_token_to_unlinked(&mut ctx, "é".repeat(15), 100, 0), Ok(()));
}

#[test]
fn zero_amount_is_told_before_a_long_handle() {
    let mut ctx = accounts(1_000);
    assert_eq!(
        send_token_to_unlinked(&mut ctx, "a".repeat(40), 0, 0),
        Err(Failure::Program(ErrorCode::InvalidAmount))
    );
}

#[test]
fn payer_without_the_amount_changes_nothing() {
    let mut ctx = accounts(99);
    let before = accounts(99);
    assert_eq!(
        send_token_to_unlinked(&mut ctx, "alice".to_string(), 100, 0),
        Err(Failure::InsufficientFunds)
    );
    assert_eq!(ctx, before);
}

#[test]
fn full_escrow_account_changes_nothing() {
    let mut ctx = accounts(100);
    ctx.escrow_token_account.amount = u64::MAX - 99;
    let mut before = accounts(100);
    before.escrow_token_account.amount = u64::MAX - 99;
    assert_eq!(
        send_token_to_unlinked(&mut ctx, "alice".to_string(), 100, 0),
        Err(Failure::BalanceOverflow)
    );
    assert_eq!(ctx, before);
}

#[test]
fn total_near_the_maximum_rejects_a_further_payment() {
    let mut ctx = accounts(1_000);
    ctx.pending_claim = PendingClaim {
        social_handle: "alice".to_string(),
        amount: u64::MAX - 10,
        claimed: false,
        payment_count: 3,
        bump: 253,
    };
    let before = ctx.pending_claim.clone();
    assert_eq!(
        send_token_to_unlinked(&mut ctx, "alice".to_string(), 11, 3),
        Err(Failure::Program(ErrorCode::InvalidAmount))
    );
    assert_eq!(ctx.pending_claim, before);
    assert_eq!(ctx.sender_token_account.amount, 1_000);
    assert_eq!(ctx.escrow_token_account.amount, 0);
    assert_eq!(ctx.payment_record, PaymentRecord::default());
    assert_eq!(send_token_to_unlinked(&mut ctx, "alice".to_string(), 10, 3), Ok(()));
    assert_eq!(ctx.pending_claim.amount, u64::MAX);
    assert_eq!(ctx.pending_claim.payment_count, 4);
}

#[test]
fn count_at_the_maximum_rejects_a_further_payment() {
    let mut ctx = accounts(1_000);
    ctx.pending_claim = PendingClaim {
        social_handle: "alice".to_string(),
        amount: 5,
        claimed: false,
        payment_count: u64::MAX,
        bump: 253,
    };
    let before = ctx.pending_claim.clone();
    assert_eq!(
        send_token_to_unlinked(&mut ctx, "alice".to_string(), 1, 3),
        Err(Failure::Program(ErrorCode::InvalidAmount))
    );
    assert_eq!(ctx.pending_claim, before);
    assert_eq!(ctx.sender_token_account.amount, 1_000);
}

#[test]
fn paying_account_of_another_wallet_is_refused() {
    let mut ctx = accounts(1_000);
    ctx.sender_token_account.owner = key(2);
    assert_eq!(
        send_token_to_unlinked(&mut ctx, "alice".to_string(), 100, 0),
        Err(Failure::TokenOwner)
    );
    assert_eq!(ctx.sender_token_account.amount, 1_000);
}

#[test]
fn escrow_account_of_a_wallet_is_refused() {
    let mut ctx = accounts(1_000);
    ctx.escrow_token_account.owner = key(1);
    assert_eq!(
        send_token_to_unlinked(&mut ctx, "alice".to_string(), 100, 0),
        Err(Failure::TokenOwner)
    );
    assert_eq!(ctx.pending_claim, PendingClaim::default());
}

#[test]
fn escrow_account_of_another_asset_is_refused() {
    let mut ctx = accounts(1_000);
    ctx.escrow_token_account.mint = key(8);
    assert_eq!(
        send_token_to_unlinked(&mut ctx, "alice".to_string(), 100, 0),
        Err(Failure::TokenMint)
    );
    assert_eq!(ctx.pending_claim, PendingClaim::default());
}

#[test]
fn open_cycle_keeps_its_handle_and_bump() {
    let mut ctx = accounts(1_000);
    ctx.pending_claim = PendingClaim {
        social_handle: "alice".to_string(),
        amount: 7,
        claimed: false,
        payment_count: 1,
        bump: 201,
    };
    assert_eq!(send_token_to_unlinked(&mut ctx, "alice".to_string(), 3, 9), Ok(()));
    assert_eq!(
        ctx.pending_claim,
        PendingClaim {
            social_handle: "alice".to_string(),
            amount: 10,
            claimed: false,
            payment_count: 2,
            bump: 201,
        }
    );
}
