use social_linking::state::handle_is_short;
use social_linking::state::MAX_HANDLE_LEN;
use social_linking::Address;
use social_linking::ErrorCode;
use social_linking::PaymentRecord;
use social_linking::PendingClaim;
use social_linking::Platform;
use social_linking::SocialLink;

#[test]
fn handle_limit_is_30_bytes() {
    assert_eq!(MAX_HANDLE_LEN, 30);
    assert!(handle_is_short(""));
    assert!(handle_is_short(&"x".repeat(30)));
    assert!(!handle_is_short(&"x".repeat(31)));
    assert!(handle_is_short(&"€".repeat(10)));
    assert!(!handle_is_short(&"€".repeat(11)));
}

#[test]
fn empty_aggregate_holds_nothing() {
    assert_eq!(
        PendingClaim::default(),
        PendingClaim {
            social_handle: String::new(),
            amount: 0,
            claimed: false,
            payment_count: 0,
            bump: 0,
        }
    );
}

#[test]
fn empty_payment_record_holds_nothing() {
    assert_eq!(
        PaymentRecord::default(),
        PaymentRecord {
            sender: Address::new([0u8; 32]),
            social_handle: String::new(),
            amount: 0,
            timestamp: 0,
            claimed: false,
            bump: 0,
        }
    );
}

#[test]
fn credit_opens_grows_and_reopens() {
    let mut claim = PendingClaim::default();
    assert_eq!(claim.credit(&"alice".to_string(), 100, 253), Ok(()));
    assert_eq!(claim.amount, 100);
    assert_eq!(claim.payment_count, 1);
    assert_eq!(claim.credit(&"alice".to_string(), 50, 1), Ok(()));
    assert_eq!(claim.amount, 150);
    assert_eq!(claim.payment_count, 2);
    assert_eq!(claim.bump, 253);
    claim.release();
    assert!(claim.claimed);
    assert_eq!(claim.amount, 150);
    assert_eq!(claim.payment_count, 2);
    assert_eq!(claim.credit(&"alice".to_string(), 30, 252), Ok(()));
    assert_eq!(
        claim,
        PendingClaim {
            social_handle: "alice".to_string(),
            amount: 30,
            claimed: false,
            payment_count: 1,
            bump: 252,
        }
    );
}

#[test]
fn credit_without_room_is_invalid() {
    let mut claim = PendingClaim {
        social_handle: "alice".to_string(),
        amount: u64::MAX,
        claimed: false,
        payment_count: 1,
        bump: 253,
    };
    let before = claim.clone();
    assert_eq!(claim.credit(&"alice".to_string(), 1, 253), Err(ErrorCode::InvalidAmount));
    assert_eq!(claim, before);
}

#[test]
fn credit_after_a_claim_has_room_whatever_the_total() {
    let mut claim = PendingClaim {
        social_handle: "alice".to_string(),
        amount: u64::MAX,
        claimed: true,
        payment_count: u64::MAX,
        bump: 253,
    };
    assert_eq!(claim.credit(&"alice".to_string(), u64::MAX, 1), Ok(()));
    assert_eq!(claim.amount, u64::MAX);
    assert_eq!(claim.payment_count, 1);
    assert!(!claim.claimed);
}

#[test]
fn link_gives_an_unowned_record_away_once() {
    let mut link = SocialLink::default();
    let first = Address::new([3u8; 32]);
    let second = Address::new([4u8; 32]);
    link.link(Platform::Twitter, first, 250, "alice".to_string());
    link.link(Platform::Twitter, second, 17, "alice2".to_string());
    assert_eq!(link.owner, first);
    assert_eq!(link.bump, 250);
    assert_eq!(link.twitter, "alice2");
}

#[test]
fn copies_equal_their_source() {
    let claim = PendingClaim {
        social_handle: "alice".to_string(),
        amount: 3,
        claimed: true,
        payment_count: 2,
        bump: 1,
    };
    assert_eq!(claim.clone(), claim);
    let record = PaymentRecord {
        sender: Address::new([1u8; 32]),
        social_handle: "alice".to_string(),
        amount: 3,
        timestamp: -5,
        claimed: false,
        bump: 1,
    };
    assert_eq!(record.clone(), record);
    let link = SocialLink {
        owner: Address::new([1u8; 32]),
        twitter: "a".to_string(),
        instagram: "b".to_string(),
        linkedin: "c".to_string(),
        bump: 1,
    };
    assert_eq!(link.clone(), link);
}
