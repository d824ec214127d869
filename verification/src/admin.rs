//! Setting the escrow up, and taking back the storage of an aggregate.

use vstd::prelude::*;

use crate::address::Address;
use crate::error::ErrorCode;
use crate::state::Config;

verus! {

/// The accounts of the setup.
#[derive(Clone, Copy, Debug, PartialEq, Eq)]
pub struct Initialize {
    /// The authority record to write, empty so far.
    pub config: Config,
    /// Who signs the setup and becomes the admin.
    pub admin: Address,
    /// The bump of the authority record's address.
    pub config_bump: u8,
}

/// Writes the authority record: the signer is the admin from now on.
pub fn initialize(ctx: &mut Initialize) -> (r: Result<(), ErrorCode>)
    ensures
        r is Ok,
        *final(ctx) == (Initialize {
            config: Config { admin: old(ctx).admin, bump: old(ctx).config_bump },
            ..*old(ctx)
        }),
{
    ctx.config.admin = ctx.admin;
    ctx.config.bump = ctx.config_bump;
    Ok(())
}

/// The accounts of an order to take back the storage of an aggregate.
#[derive(Clone, Copy, Debug, PartialEq, Eq)]
pub struct ClosePendingClaim {
    /// Who signs the order.
    pub admin: Address,
    /// What the signer's wallet holds in lamports.
    pub admin_lamports: u64,
    /// The authority record.
    pub config: Config,
    /// The lamports that keep the aggregate's storage alive. An aggregate
    /// that holds none is dropped from storage.
    pub pending_claim_lamports: u64,
}

impl ClosePendingClaim {
    /// The accounts after the order: the admin holds the aggregate's lamports.
    pub open spec fn closed(self) -> ClosePendingClaim {
        ClosePendingClaim {
            admin_lamports: (self.admin_lamports + self.pending_claim_lamports) as u64,
            pending_claim_lamports: 0,
            ..self
        }
    }
}

/// Moves the lamports that keep an aggregate's storage alive to the admin,
/// whatever the aggregate holds: what still waits in escrow for the handle
/// can no longer be claimed. Only the admin may order it. The handle is part
/// of the aggregate's address and of nothing else.
pub fn close_pending_claim(ctx: &mut ClosePendingClaim, _social_handle: String) -> (r: Result<
    (),
    ErrorCode,
>)
    requires
        old(ctx).config.admin == old(ctx).admin ==> old(ctx).admin_lamports + old(
            ctx,
        ).pending_claim_lamports <= u64::MAX,
    ensures
        old(ctx).config.admin != old(ctx).admin ==> r == Err::<(), ErrorCode>(
            ErrorCode::Unauthorized,
        ) && *final(ctx) == *old(ctx),
        old(ctx).config.admin == old(ctx).admin ==> r is Ok && *final(ctx) == old(ctx).closed(),
{
    if !ctx.config.is_admin(&ctx.admin) {
        return Err(ErrorCode::Unauthorized);
    }
    ctx.admin_lamports = ctx.admin_lamports + ctx.pending_claim_lamports;
    ctx.pending_claim_lamports = 0;
    Ok(())
}

} // verus!
