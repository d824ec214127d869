//! Escrow of token payments addressed to social-media handles.
//!
//! A payer sends value to a handle before the handle's owner has a wallet.
//! The value waits in an escrow holding account; one aggregate record per
//! handle counts what is waiting, and one payment record per payment keeps the
//! history. Whoever holds a link record that names the handle claims the whole
//! aggregate at once.
//!
//! The crate has two layers. The instructions ([`initialize`], the three
//! `link_*`, [`send_token`], [`send_token_to_unlinked`], [`claim_token`] and
//! [`close_pending_claim`]) each work on the accounts that they are handed, as
//! plain values. The [`Ledger`] keeps all records of one escrow, finds for
//! each operation the records that it needs, and runs the instruction on
//! them. [`laws`] states what holds of every ledger.

pub mod address;
pub mod admin;
pub mod claim;
pub mod deposit;
pub mod error;
pub mod laws;
pub mod ledger;
pub mod link;
pub mod model;
pub mod send;
pub mod state;
pub mod table;
pub mod token;

pub use address::Address;
pub use admin::ClosePendingClaim;
pub use admin::Initialize;
pub use admin::close_pending_claim;
pub use admin::initialize;
pub use claim::ClaimToken;
pub use claim::claim_token;
pub use deposit::SendTokenToUnlinked;
pub use deposit::send_token_to_unlinked;
pub use error::ErrorCode;
pub use error::Failure;
pub use ledger::Ledger;
pub use link::LinkInstagram;
pub use link::LinkLinkedin;
pub use link::LinkTwitter;
pub use link::link_instagram;
pub use link::link_linkedin;
pub use link::link_twitter;
pub use send::SendToken;
pub use send::send_token;
pub use state::Config;
pub use state::PaymentRecord;
pub use state::PendingClaim;
pub use state::Platform;
pub use state::SocialLink;
pub use token::TokenAccount;
