//! Paying to a handle.

use vstd::prelude::*;

use crate::address::Address;
use crate::error::ErrorCode;
use crate::error::Failure;
use crate::state::handle_fits;
use crate::state::handle_is_short;
use crate::state::Config;
use crate::state::PaymentRecord;
use crate::state::PaymentRecordView;
use crate::state::PendingClaim;
use crate::state::PendingClaimView;
use crate::token::transfer;
use crate::token::TokenAccount;

verus! {

/// The accounts of a payment to a handle.
#[derive(Clone, Debug, PartialEq, Eq)]
pub struct SendTokenToUnlinked {
    /// Who pays.
    pub sender: Address,
    /// The holding account that is paid from.
    pub sender_token_account: TokenAccount,
    /// The escrow holding account of the same asset.
    pub escrow_token_account: TokenAccount,
    /// The aggregate of the handle: as it stands, or empty where the handle
    /// was never paid.
    pub pending_claim: PendingClaim,
    /// The payment record to fill, empty so far.
    pub payment_record: PaymentRecord,
    /// The authority record.
    pub config: Config,
    /// The address of the authority record, which owns the escrow holding
    /// accounts.
    pub authority: Address,
    /// The bump of the aggregate's address.
    pub pending_claim_bump: u8,
    /// The bump of the payment record's address.
    pub payment_record_bump: u8,
    /// The time of the payment, in seconds since the epoch.
    pub unix_timestamp: i64,
}

/// What a [`SendTokenToUnlinked`] holds.
pub struct SendTokenToUnlinkedView {
    pub sender: Address,
    pub sender_token_account: TokenAccount,
    pub escrow_token_account: TokenAccount,
    pub pending_claim: PendingClaimView,
    pub payment_record: PaymentRecordView,
    pub config: Config,
    pub authority: Address,
    pub pending_claim_bump: u8,
    pub payment_record_bump: u8,
    pub unix_timestamp: i64,
}

impl View for SendTokenToUnlinked {
    type V = SendTokenToUnlinkedView;

    open spec fn view(&self) -> SendTokenToUnlinkedView {
        SendTokenToUnlinkedView {
            sender: self.sender,
            sender_token_account: self.sender_token_account,
            escrow_token_account: self.escrow_token_account,
            pending_claim: self.pending_claim@,
            payment_record: self.payment_record@,
            config: self.config,
            authority: self.authority,
            pending_claim_bump: self.pending_claim_bump,
            payment_record_bump: self.payment_record_bump,
            unix_timestamp: self.unix_timestamp,
        }
    }
}

impl SendTokenToUnlinkedView {
    /// Why the payment of `amount` to `handle` is turned down, if it is. The
    /// accounts are looked at first, then the amount and the handle, then the
    /// balances, and last the room in the aggregate.
    pub open spec fn rejection(self, handle: Seq<char>, amount: u64) -> Option<Failure> {
        if self.sender_token_account.owner != self.sender {
            Some(Failure::TokenOwner)
        } else if self.escrow_token_account.owner != self.authority {
            Some(Failure::TokenOwner)
        } else if self.escrow_token_account.mint != self.sender_token_account.mint {
            Some(Failure::TokenMint)
        } else if amount == 0 {
            Some(Failure::Program(ErrorCode::InvalidAmount))
        } else if !handle_fits(handle) {
            Some(Failure::Program(ErrorCode::HandleTooLong))
        } else if self.sender_token_account.amount < amount {
            Some(Failure::InsufficientFunds)
        } else if self.escrow_token_account.amount + amount > u64::MAX {
            Some(Failure::BalanceOverflow)
        } else if !self.pending_claim.has_room(amount) {
            Some(Failure::Program(ErrorCode::InvalidAmount))
        } else {
            None
        }
    }

    /// The accounts after the payment of `amount` to `handle`: the amount is
    /// in escrow, the aggregate counts it, and the payment record tells of it.
    pub open spec fn paid(self, handle: Seq<char>, amount: u64) -> SendTokenToUnlinkedView {
        SendTokenToUnlinkedView {
            sender_token_account: self.sender_token_account.debited(amount),
            escrow_token_account: self.escrow_token_account.credited(amount),
            pending_claim: self.pending_claim.credited(handle, amount, self.pending_claim_bump),
            payment_record: PaymentRecordView::of(
                self.sender,
                handle,
                amount,
                self.unix_timestamp,
                self.payment_record_bump,
            ),
            ..self
        }
    }
}

/// Pays `amount` to `social_handle`: moves it into escrow, counts it in the
/// handle's aggregate and writes the payment record. The payment index is
/// part of the payment record's address and of nothing else. Where the
/// payment is turned down, no account changes.
pub fn send_token_to_unlinked(
    ctx: &mut SendTokenToUnlinked,
    social_handle: String,
    amount: u64,
    payment_index: u64,
) -> (r: Result<(), Failure>)
    ensures
        match old(ctx)@.rejection(social_handle@, amount) {
            Some(failure) => r == Err::<(), Failure>(failure) && final(ctx)@ == old(ctx)@,
            None => r is Ok && final(ctx)@ == old(ctx)@.paid(social_handle@, amount),
        },
{
    if ctx.sender_token_account.owner != ctx.sender {
        return Err(Failure::TokenOwner);
    }
    if ctx.escrow_token_account.owner != ctx.authority {
        return Err(Failure::TokenOwner);
    }
    if ctx.escrow_token_account.mint != ctx.sender_token_account.mint {
        return Err(Failure::TokenMint);
    }
    if amount == 0 {
        return Err(Failure::Program(ErrorCode::InvalidAmount));
    }
    if !handle_is_short(social_handle.as_str()) {
        return Err(Failure::Program(ErrorCode::HandleTooLong));
    }
    let mut paying = ctx.sender_token_account;
    let mut escrow = ctx.escrow_token_account;
    match transfer(&mut paying, &mut escrow, amount) {
        Ok(()) => {},
        Err(failure) => {
            return Err(failure);
        },
    }
    match ctx.pending_claim.credit(&social_handle, amount, ctx.pending_claim_bump) {
        Ok(()) => {},
        Err(code) => {
            return Err(Failure::Program(code));
        },
    }
    ctx.sender_token_account = paying;
    ctx.escrow_token_account = escrow;
    ctx.payment_record =
    PaymentRecord {
        sender: ctx.sender,
        social_handle,
        amount,
        timestamp: ctx.unix_timestamp,
        claimed: false,
        bump: ctx.payment_record_bump,
    };
    Ok(())
}

} // verus!
