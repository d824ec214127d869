//! Claiming what waits for a handle.

use vstd::prelude::*;

use crate::address::Address;
use crate::error::ErrorCode;
use crate::error::Failure;
use crate::state::Config;
use crate::state::PendingClaim;
use crate::state::PendingClaimView;
use crate::state::SocialLink;
use crate::state::SocialLinkView;
use crate::token::transfer;
use crate::token::TokenAccount;

verus! {

/// The accounts of a claim.
#[derive(Clone, Debug, PartialEq, Eq)]
pub struct ClaimToken {
    /// Who claims.
    pub claimer: Address,
    /// The link record that the claimer shows.
    pub social_link: SocialLink,
    /// The aggregate of the handle.
    pub pending_claim: PendingClaim,
    /// The escrow holding account that pays out.
    pub escrow_token_account: TokenAccount,
    /// The claimer's holding account of the same asset.
    pub claimer_token_account: TokenAccount,
    /// The authority record.
    pub config: Config,
    /// The address of the authority record, which owns the escrow holding
    /// accounts and signs for them.
    pub authority: Address,
}

/// What a [`ClaimToken`] holds.
pub struct ClaimTokenView {
    pub claimer: Address,
    pub social_link: SocialLinkView,
    pub pending_claim: PendingClaimView,
    pub escrow_token_account: TokenAccount,
    pub claimer_token_account: TokenAccount,
    pub config: Config,
    pub authority: Address,
}

impl View for ClaimToken {
    type V = ClaimTokenView;

    open spec fn view(&self) -> ClaimTokenView {
        ClaimTokenView {
            claimer: self.claimer,
            social_link: self.social_link@,
            pending_claim: self.pending_claim@,
            escrow_token_account: self.escrow_token_account,
            claimer_token_account: self.claimer_token_account,
            config: self.config,
            authority: self.authority,
        }
    }
}

impl ClaimTokenView {
    /// Whether the link record is the claimer's own and names `handle`,
    /// letter for letter.
    pub open spec fn is_linked(self, handle: Seq<char>) -> bool {
        self.social_link.owner == self.claimer && self.social_link.names(handle)
    }

    /// Why the claim of `handle` is turned down, if it is. The link is asked
    /// first, then whether the cycle was claimed before, then the holding
    /// accounts, the aggregate's own handle, and last the balances.
    pub open spec fn rejection(self, handle: Seq<char>) -> Option<Failure> {
        if !self.is_linked(handle) {
            Some(Failure::Program(ErrorCode::NotLinked))
        } else if self.pending_claim.claimed {
            Some(Failure::Program(ErrorCode::AlreadyClaimed))
        } else if self.escrow_token_account.owner != self.authority {
            Some(Failure::TokenOwner)
        } else if self.claimer_token_account.owner != self.claimer {
            Some(Failure::TokenOwner)
        } else if self.claimer_token_account.mint != self.escrow_token_account.mint {
            Some(Failure::TokenMint)
        } else if self.pending_claim.social_handle != handle {
            Some(Failure::Program(ErrorCode::InvalidHandle))
        } else if self.escrow_token_account.amount < self.pending_claim.amount {
            Some(Failure::InsufficientFunds)
        } else if self.claimer_token_account.amount + self.pending_claim.amount > u64::MAX {
            Some(Failure::BalanceOverflow)
        } else {
            None
        }
    }

    /// The accounts after the claim: the whole of the aggregate has moved from
    /// escrow to the claimer, and the aggregate is marked as claimed.
    pub open spec fn claimed(self) -> ClaimTokenView {
        ClaimTokenView {
            escrow_token_account: self.escrow_token_account.debited(self.pending_claim.amount),
            claimer_token_account: self.claimer_token_account.credited(self.pending_claim.amount),
            pending_claim: self.pending_claim.released(),
            ..self
        }
    }
}

/// Releases to the claimer all that waits for `social_handle`, once. Where
/// the claim is turned down, no account changes.
pub fn claim_token(ctx: &mut ClaimToken, social_handle: String) -> (r: Result<(), Failure>)
    ensures
        match old(ctx)@.rejection(social_handle@) {
            Some(failure) => r == Err::<(), Failure>(failure) && final(ctx)@ == old(ctx)@,
            None => r is Ok && final(ctx)@ == old(ctx)@.claimed(),
        },
{
    if ctx.social_link.owner != ctx.claimer || !ctx.social_link.names(&social_handle) {
        return Err(Failure::Program(ErrorCode::NotLinked));
    }
    if ctx.pending_claim.claimed {
        return Err(Failure::Program(ErrorCode::AlreadyClaimed));
    }
    if ctx.escrow_token_account.owner != ctx.authority {
        return Err(Failure::TokenOwner);
    }
    if ctx.claimer_token_account.owner != ctx.claimer {
        return Err(Failure::TokenOwner);
    }
    if ctx.claimer_token_account.mint != ctx.escrow_token_account.mint {
        return Err(Failure::TokenMint);
    }
    if ctx.pending_claim.social_handle != social_handle {
        return Err(Failure::Program(ErrorCode::InvalidHandle));
    }
    let amount: u64 = ctx.pending_claim.amount;
    let mut escrow = ctx.escrow_token_account;
    let mut receiving = ctx.claimer_token_account;
    match transfer(&mut escrow, &mut receiving, amount) {
        Ok(()) => {},
        Err(failure) => {
            return Err(failure);
        },
    }
    ctx.escrow_token_account = escrow;
    ctx.claimer_token_account = receiving;
    ctx.pending_claim.release();
    Ok(())
}

} // verus!
