//! Why an instruction is turned down.

use vstd::prelude::*;

verus! {

/// The rules of the handle escrow itself, one variant for each rule that an
/// instruction can break.
#[derive(Clone, Copy, Debug, PartialEq, Eq, Structural)]
pub enum ErrorCode {
    /// A handle is longer than [`crate::state::MAX_HANDLE_LEN`] bytes.
    HandleTooLong,
    /// An amount is zero, or adding it to an aggregate would overflow.
    InvalidAmount,
    /// The aggregate has no open cycle to release.
    AlreadyClaimed,
    /// The claimer's link record does not name the handle.
    NotLinked,
    /// The signer of an admin instruction is not the admin.
    Unauthorized,
    /// The aggregate handed in belongs to another handle.
    InvalidHandle,
}

impl ErrorCode {
    /// The text shown to a user for this error.
    pub open spec fn spec_message(self) -> Seq<char> {
        match self {
            ErrorCode::HandleTooLong => "Social handle is too long"@,
            ErrorCode::InvalidAmount => "Invalid amount"@,
            ErrorCode::AlreadyClaimed => "Already claimed"@,
            ErrorCode::NotLinked => "User has not linked any social accounts"@,
            ErrorCode::Unauthorized => "Unauthorized: Only admin can perform this action"@,
            ErrorCode::InvalidHandle => "Invalid social handle"@,
        }
    }

    /// Returns the text shown to a user for this error.
    pub fn message(&self) -> (text: &'static str)
        ensures
            text@ == self.spec_message(),
    {
        match self {
            ErrorCode::HandleTooLong => "Social handle is too long",
            ErrorCode::InvalidAmount => "Invalid amount",
            ErrorCode::AlreadyClaimed => "Already claimed",
            ErrorCode::NotLinked => "User has not linked any social accounts",
            ErrorCode::Unauthorized => "Unauthorized: Only admin can perform this action",
            ErrorCode::InvalidHandle => "Invalid social handle",
        }
    }
}

/// Every way in which an instruction can fail: a broken rule of the escrow, a
/// holding account that does not fit the instruction, a transfer that the
/// balances do not allow, or a record that is in the way or has no place.
#[derive(Clone, Copy, Debug, PartialEq, Eq, Structural)]
pub enum Failure {
    /// A rule of the escrow is broken.
    Program(ErrorCode),
    /// A holding account is not owned by the party the instruction names.
    TokenOwner,
    /// Two holding accounts of one transfer hold different assets.
    TokenMint,
    /// The paying account holds less than the amount to move.
    InsufficientFunds,
    /// The receiving account cannot hold the amount on top of its balance.
    BalanceOverflow,
    /// A payment record already exists under the handle and payment index.
    IndexInUse,
    /// No address can be derived for a record.
    NoAddress,
}

} // verus!
