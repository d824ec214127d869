//! Holding accounts, as far as the escrow reads them.
//!
//! The token ledger is not part of the escrow. What is kept here is what an
//! instruction looks at in a holding account (the asset, the owner and the
//! balance) and what a transfer does to two balances.

use vstd::prelude::*;

use crate::address::Address;
use crate::error::Failure;

verus! {

/// A holding account of the token ledger.
#[derive(Clone, Copy, Debug, PartialEq, Eq)]
pub struct TokenAccount {
    /// The asset that the account holds.
    pub mint: Address,
    /// Who may move the balance.
    pub owner: Address,
    /// The balance.
    pub amount: u64,
}

impl TokenAccount {
    /// The account with `amount` taken out.
    pub open spec fn debited(self, amount: u64) -> TokenAccount {
        TokenAccount { amount: (self.amount - amount) as u64, ..self }
    }

    /// The account with `amount` put in.
    pub open spec fn credited(self, amount: u64) -> TokenAccount {
        TokenAccount { amount: (self.amount + amount) as u64, ..self }
    }
}

/// Why `amount` cannot move from `from` to `to`, if it cannot: the paying
/// account is asked first.
pub open spec fn transfer_error(from: TokenAccount, to: TokenAccount, amount: u64) -> Option<
    Failure,
> {
    if from.amount < amount {
        Some(Failure::InsufficientFunds)
    } else if to.amount + amount > u64::MAX {
        Some(Failure::BalanceOverflow)
    } else {
        None
    }
}

/// Moves `amount` from one holding account to another, or changes neither.
/// Who may order the transfer is for the caller to settle.
pub fn transfer(from: &mut TokenAccount, to: &mut TokenAccount, amount: u64) -> (r: Result<
    (),
    Failure,
>)
    ensures
        match transfer_error(*old(from), *old(to), amount) {
            Some(failure) => r == Err::<(), Failure>(failure) && *final(from) == *old(from)
                && *final(to) == *old(to),
            None => r is Ok && *final(from) == old(from).debited(amount) && *final(to) == old(
                to,
            ).credited(amount),
        },
{
    if from.amount < amount {
        return Err(Failure::InsufficientFunds);
    }
    let raised = match to.amount.checked_add(amount) {
        Some(raised) => raised,
        None => {
            return Err(Failure::BalanceOverflow);
        },
    };
    from.amount = from.amount - amount;
    to.amount = raised;
    Ok(())
}

} // verus!
