use social_linking::Address;
use social_linking::Config;
use social_linking::ErrorCode;
use social_linking::Failure;
use social_linking::Ledger;
use social_linking::Platform;
use social_linking::TokenAccount;

fn key(tag: u8) -> Address {
    Address::new([tag; 32])
}

fn place(tag: u8, bump: u8) -> Option<(Address, u8)> {
    Some((key(tag), bump))
}

fn ledger() -> Ledger {
    Ledger::initialize_at(key(42), key(5), place(7, 254)).unwrap()
}

fn wallet(owner: Address, amount: u64) -> TokenAccount {
    TokenAccount { mint: key(9), owner, amount }
}

#[test]
fn setup_at_a_place_keeps_address_and_bump() {
    let ledger = ledger();
    assert_eq!(ledger.program_id(), key(42));
    assert_eq!(ledger.authority(), key(7));
    assert_eq!(ledger.config(), Config { admin: key(5), bump: 254 });
}

#[test]
fn setup_without_a_place_has_no_address() {
    assert!(matches!(Ledger::initialize_at(key(42), key(5), None), Err(Failure::NoAddress)));
}

#[test]
fn records_carry_the_bumps_of_their_places() {
    let mut ledger = ledger();
    let mut payer = wallet(key(1), 1_000);
    assert_eq!(
        ledger.deposit_to_handle_at(&mut payer, "alice", 100, 0, 11, place(20, 253), place(21, 252)),
        Ok(())
    );
    assert_eq!(
        ledger.deposit_to_handle_at(&mut payer, "alice", 50, 1, 12, place(20, 100), place(22, 251)),
        Ok(())
    );
    assert_eq!(ledger.pending_claim("alice").unwrap().bump, 253);
    assert_eq!(ledger.pending_claim("alice").unwrap().amount, 150);
    assert_eq!(ledger.payment("alice", 0).unwrap().bump, 252);
    assert_eq!(ledger.payment("alice", 1).unwrap().bump, 251);

    assert_eq!(
        ledger.link_handle_at(&key(5), Platform::Twitter, key(3), "alice", place(30, 250)),
        Ok(())
    );
    assert_eq!(
        ledger.link_handle_at(&key(5), Platform::Instagram, key(3), "alice.pics", place(30, 17)),
        Ok(())
    );
    assert_eq!(ledger.link(&key(3)).unwrap().bump, 250);
    assert_eq!(ledger.link(&key(3)).unwrap().owner, key(3));
    assert_eq!(ledger.link(&key(3)).unwrap().instagram, "alice.pics");
}

#[test]
fn payment_without_a_place_has_no_address() {
    let mut ledger = ledger();
    let mut payer = wallet(key(1), 1_000);
    assert_eq!(
        ledger.deposit_to_handle_at(&mut payer, "alice", 100, 0, 11, None, place(21, 252)),
        Err(Failure::NoAddress)
    );
    assert_eq!(
        ledger.deposit_to_handle_at(&mut payer, "alice", 100, 0, 11, place(20, 253), None),
        Err(Failure::NoAddress)
    );
    assert_eq!(payer.amount, 1_000);
    assert_eq!(ledger.pending_claim("alice"), None);
    assert_eq!(ledger.payment("alice", 0), None);
    assert_eq!(ledger.escrow_balance(&key(9)), 0);
}

#[test]
fn payment_is_judged_before_its_places() {
    let mut ledger = ledger();
    let mut payer = wallet(key(1), 10);
    assert_eq!(
        ledger.deposit_to_handle_at(&mut payer, "alice", 0, 0, 11, None, None),
        Err(Failure::Program(ErrorCode::InvalidAmount))
    );
    assert_eq!(
        ledger.deposit_to_handle_at(&mut payer, &"a".repeat(31), 5, 0, 11, None, None),
        Err(Failure::Program(ErrorCode::HandleTooLong))
    );
    assert_eq!(
        ledger.deposit_to_handle_at(&mut payer, "alice", 11, 0, 11, None, None),
        Err(Failure::InsufficientFunds)
    );
}

#[test]
fn missing_place_is_told_before_a_used_index() {
    let mut ledger = ledger();
    let mut payer = wallet(key(1), 1_000);
    assert_eq!(
        ledger.deposit_to_handle_at(&mut payer, "alice", 100, 0, 11, place(20, 253), place(21, 252)),
        Ok(())
    );
    assert_eq!(
        ledger.deposit_to_handle_at(&mut payer, "alice", 50, 0, 12, place(20, 253), None),
        Err(Failure::NoAddress)
    );
    assert_eq!(
        ledger.deposit_to_handle_at(&mut payer, "alice", 50, 0, 12, place(20, 253), place(21, 252)),
        Err(Failure::IndexInUse)
    );
    assert_eq!(ledger.pending_claim("alice").unwrap().amount, 100);
    assert_eq!(payer.amount, 900);
}

#[test]
fn link_without_a_place_has_no_address() {
    let mut ledger = ledger();
    assert_eq!(
        ledger.link_handle_at(&key(5), Platform::Twitter, key(3), "alice", None),
        Err(Failure::NoAddress)
    );
    assert_eq!(ledger.link(&key(3)), None);
    assert_eq!(
        ledger.link_handle_at(&key(4), Platform::Twitter, key(3), "alice", None),
        Err(Failure::Program(ErrorCode::Unauthorized))
    );
    assert_eq!(
        ledger.link_handle_at(&key(5), Platform::Twitter, key(3), &"a".repeat(31), None),
        Err(Failure::Program(ErrorCode::HandleTooLong))
    );
}

#[test]
fn claim_pays_out_of_the_escrow_of_the_authority() {
    let mut ledger = ledger();
    let mut payer = wallet(key(1), 1_000);
    assert_eq!(
        ledger.deposit_to_handle_at(&mut payer, "alice", 100, 0, 11, place(20, 253), place(21, 252)),
        Ok(())
    );
    assert_eq!(
        ledger.link_handle_at(&key(5), Platform::Linkedin, key(3), "alice", place(30, 250)),
        Ok(())
    );
    let mut claimer = wallet(key(3), 1);
    assert_eq!(ledger.claim(&mut claimer, "alice"), Ok(()));
    assert_eq!(claimer.amount, 101);
    assert_eq!(ledger.escrow_balance(&key(9)), 0);
}
