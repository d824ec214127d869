//! Paying a wallet directly.

use vstd::prelude::*;

use crate::address::Address;
use crate::error::ErrorCode;
use crate::error::Failure;
use crate::token::TokenAccount;

verus! {

/// The accounts of a direct payment.
#[derive(Clone, Copy, Debug, PartialEq, Eq)]
pub struct SendToken {
    /// Who pays.
    pub sender: Address,
    /// The holding account that is paid from.
    pub sender_token_account: TokenAccount,
    /// The recipient's holding account of the same asset.
    pub recipient_token_account: TokenAccount,
    /// Who is paid.
    pub recipient: Address,
}

impl SendToken {
    /// Why the payment of `amount` is turned down, if it is: the accounts are
    /// looked at first, then the amount, then the balances. A wallet that pays
    /// itself needs the amount, and no room for it.
    pub open spec fn rejection(self, amount: u64) -> Option<Failure> {
        if self.sender_token_account.owner != self.sender {
            Some(Failure::TokenOwner)
        } else if self.recipient_token_account.owner != self.recipient {
            Some(Failure::TokenOwner)
        } else if self.recipient_token_account.mint != self.sender_token_account.mint {
            Some(Failure::TokenMint)
        } else if amount == 0 {
            Some(Failure::Program(ErrorCode::InvalidAmount))
        } else if self.sender_token_account.amount < amount {
            Some(Failure::InsufficientFunds)
        } else if self.sender != self.recipient && self.recipient_token_account.amount + amount
            > u64::MAX {
            Some(Failure::BalanceOverflow)
        } else {
            None
        }
    }

    /// The accounts after the payment of `amount`. A wallet has one holding
    /// account for each asset, so a wallet that pays itself names the same
    /// account twice, and its balance stays.
    pub open spec fn sent(self, amount: u64) -> SendToken {
        if self.sender == self.recipient {
            self
        } else {
            SendToken {
                sender_token_account: self.sender_token_account.debited(amount),
                recipient_token_account: self.recipient_token_account.credited(amount),
                ..self
            }
        }
    }
}

/// Pays `amount` from the sender's holding account to the recipient's. Where
/// the payment is turned down, no account changes.
pub fn send_token(ctx: &mut SendToken, amount: u64) -> (r: Result<(), Failure>)
    ensures
        match old(ctx).rejection(amount) {
            Some(failure) => r == Err::<(), Failure>(failure) && *final(ctx) == *old(ctx),
            None => r is Ok && *final(ctx) == old(ctx).sent(amount),
        },
{
    if ctx.sender_token_account.owner != ctx.sender {
        return Err(Failure::TokenOwner);
    }
    if ctx.recipient_token_account.owner != ctx.recipient {
        return Err(Failure::TokenOwner);
    }
    if ctx.recipient_token_account.mint != ctx.sender_token_account.mint {
        return Err(Failure::TokenMint);
    }
    if amount == 0 {
        return Err(Failure::Program(ErrorCode::InvalidAmount));
    }
    if ctx.sender_token_account.amount < amount {
        return Err(Failure::InsufficientFunds);
    }
    if ctx.sender == ctx.recipient {
        return Ok(());
    }
    let raised = match ctx.recipient_token_account.amount.checked_add(amount) {
        Some(raised) => raised,
        None => {
            return Err(Failure::BalanceOverflow);
        },
    };
    ctx.sender_token_account.amount = ctx.sender_token_account.amount - amount;
    ctx.recipient_token_account.amount = raised;
    Ok(())
}

} // verus!
