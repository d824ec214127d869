use social_linking::claim_token;
use social_linking::Address;
use social_linking::ClaimToken;
use social_linking::Config;
use social_linking::ErrorCode;
use social_linking::Failure;
use social_linking::PendingClaim;
use social_linking::SocialLink;
use social_linking::TokenAccount;

fn key(tag: u8) -> Address {
    Address::new([tag; 32])
}

fn accounts() -> ClaimToken {
    ClaimToken {
        claimer: key(3),
        social_link: SocialLink {
            owner: key(3),
            twitter: "alice".to_string(),
            instagram: String::new(),
            linkedin: "alice-at-work".to_string(),
            bump: 250,
        },
        pending_claim: PendingClaim {
            social_handle: "alice".to_string(),
            amount: 150,
            claimed: false,
            payment_count: 2,
            bump: 253,
        },
        escrow_token_account: TokenAccount { mint: key(9), owner: key(7), amount: 400 },
        claimer_token_account: TokenAccount { mint: key(9), owner: key(3), amount: 20 },
        config: Config { admin: key(5), bump: 254 },
        authority: key(7),
    }
}

#[test]
fn claim_pays_the_whole_aggregate() {
    let mut ctx = accounts();
    assert_eq!(claim_token(&mut ctx, "alice".to_string()), Ok(()));
    assert_eq!(ctx.claimer_token_account.amount, 170);
    assert_eq!(ctx.escrow_token_account.amount, 250);
    assert_eq!(
        ctx.pending_claim,
        PendingClaim {
            social_handle: "alice".to_string(),
            amount: 150,
            claimed: true,
            payment_count: 2,
            bump: 253,
        }
    );
    assert_eq!(ctx.social_link, accounts().social_link);
}

#[test]
fn second_claim_of_a_cycle_is_already_claimed() {
    let mut ctx = accounts();
    assert_eq!(claim_token(&mut ctx, "alice".to_string()), Ok(()));
    let after_first = ctx.clone();
    assert_eq!(
        claim_token(&mut ctx, "alice".to_string()),
        Err(Failure::Program(ErrorCode::AlreadyClaimed))
    );
    assert_eq!(ctx, after_first);
    assert_eq!(ctx.claimer_token_account.amount, 170);
}

#[test]
fn claim_through_any_of_the_three_handles() {
    let mut ctx = accounts();
    ctx.pending_claim.social_handle = "alice-at-work".to_string();
    assert_eq!(claim_token(&mut ctx, "alice-at-work".to_string()), Ok(()));
    assert_eq!(ctx.claimer_token_account.amount, 170);

    let mut ctx = accounts();
    ctx.social_link.twitter = String::new();
    ctx.social_link.instagram = "alice".to_string();
    assert_eq!(claim_token(&mut ctx, "alice".to_string()), Ok(()));
}

#[test]
fn claimer_without_the_handle_is_not_linked() {
    let mut ctx = accounts();
    let before = accounts();
    assert_eq!(
        claim_token(&mut ctx, "bob".to_string()),
        Err(Failure::Program(ErrorCode::NotLinked))
    );
    assert_eq!(ctx, before);
}

#[test]
fn handle_is_matched_letter_for_letter() {
    let mut ctx = accounts();
    assert_eq!(
        claim_token(&mut ctx, "Alice".to_string()),
        Err(Failure::Program(ErrorCode::NotLinked))
    );
    assert_eq!(
        claim_token(&mut ctx, "alice ".to_string()),
        Err(Failure::Program(ErrorCode::NotLinked))
    );
    assert_eq!(ctx, accounts());
}

#[test]
fn link_record_of_another_wallet_does_not_count() {
    let mut ctx = accounts();
    ctx.social_link.owner = key(4);
    assert_eq!(
        claim_token(&mut ctx, "alice".to_string()),
        Err(Failure::Program(ErrorCode::NotLinked))
    );
    assert_eq!(ctx.escrow_token_account.amount, 400);
    assert!(!ctx.pending_claim.claimed);
}

#[test]
fn not_linked_is_told_before_already_claimed() {
    let mut ctx = accounts();
    ctx.pending_claim.claimed = true;
    assert_eq!(
        claim_token(&mut ctx, "bob".to_string()),
        Err(Failure::Program(ErrorCode::NotLinked))
    );
    assert_eq!(
        claim_token(&mut ctx, "alice".to_string()),
        Err(Failure::Program(ErrorCode::AlreadyClaimed))
    );
}

#[test]
fn aggregate_of_another_handle_is_invalid() {
    let mut ctx = accounts();
    ctx.pending_claim.social_handle = "carol".to_string();
    let mut before = accounts();
    before.pending_claim.social_handle = "carol".to_string();
    assert_eq!(
        claim_token(&mut ctx, "alice".to_string()),
        Err(Failure::Program(ErrorCode::InvalidHandle))
    );
    assert_eq!(ctx, before);
}

#[test]
fn escrow_that_holds_too_little_pays_nothing() {
    let mut ctx = accounts();
    ctx.escrow_token_account.amount = 149;
    assert_eq!(claim_token(&mut ctx, "alice".to_string()), Err(Failure::InsufficientFunds));
    assert_eq!(ctx.escrow_token_account.amount, 149);
    assert_eq!(ctx.claimer_token_account.amount, 20);
    assert!(!ctx.pending_claim.claimed);
}

#[test]
fn claimer_account_without_room_is_paid_nothing() {
    let mut ctx = accounts();
    ctx.claimer_token_account.amount = u64::MAX - 149;
    assert_eq!(claim_token(&mut ctx, "alice".to_string()), Err(Failure::BalanceOverflow));
    assert_eq!(ctx.escrow_token_account.amount, 400);
    assert!(!ctx.pending_claim.claimed);
    ctx.claimer_token_account.amount = u64::MAX - 150;
    assert_eq!(claim_token(&mut ctx, "alice".to_string()), Ok(()));
    assert_eq!(ctx.claimer_token_account.amount, u64::MAX);
}

#[test]
fn paying_out_of_an_account_that_is_not_the_escrows_is_refused() {
    let mut ctx = accounts();
    ctx.escrow_token_account.owner = key(8);
    assert_eq!(claim_token(&mut ctx, "alice".to_string()), Err(Failure::TokenOwner));
    assert_eq!(ctx, {
        let mut before = accounts();
        before.escrow_token_account.owner = key(8);
        before
    });
}

#[test]
fn paying_into_an_account_of_another_wallet_is_refused() {
    let mut ctx = accounts();
    ctx.claimer_token_account.owner = key(4);
    assert_eq!(claim_token(&mut ctx, "alice".to_string()), Err(Failure::TokenOwner));
    assert!(!ctx.pending_claim.claimed);
}

#[test]
fn paying_into_an_account_of_another_asset_is_refused() {
    let mut ctx = accounts();
    ctx.claimer_token_account.mint = key(8);
    assert_eq!(claim_token(&mut ctx, "alice".to_string()), Err(Failure::TokenMint));
    assert!(!ctx.pending_claim.claimed);
}

#[test]
fn empty_handle_matches_a_platform_that_is_not_linked() {
    let mut ctx = accounts();
    ctx.pending_claim.social_handle = String::new();
    assert_eq!(claim_token(&mut ctx, String::new()), Ok(()));
    assert_eq!(ctx.claimer_token_account.amount, 170);
}
