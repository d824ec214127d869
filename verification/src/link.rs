//! Linking a wallet to a handle.

use vstd::prelude::*;

use crate::address::Address;
use crate::error::ErrorCode;
use crate::state::handle_fits;
use crate::state::handle_is_short;
use crate::state::Config;
use crate::state::Platform;
use crate::state::SocialLink;
use crate::state::SocialLinkView;

verus! {

/// Why the admin's order to write `handle` into a link record is turned
/// down, if it is: the signer is looked at first, then the handle.
pub open spec fn link_rejection(config: Config, admin: Address, handle: Seq<char>) -> Option<
    ErrorCode,
> {
    if config.admin != admin {
        Some(ErrorCode::Unauthorized)
    } else if !handle_fits(handle) {
        Some(ErrorCode::HandleTooLong)
    } else {
        None
    }
}

/// Writes `handle` for `platform` into the link record of `user`, by order of
/// `admin`. Where the order is turned down, the record does not change.
pub fn link_handle(
    social_link: &mut SocialLink,
    config: &Config,
    admin: &Address,
    user: Address,
    bump: u8,
    platform: Platform,
    handle: String,
) -> (r: Result<(), ErrorCode>)
    ensures
        match link_rejection(*config, *admin, handle@) {
            Some(code) => r == Err::<(), ErrorCode>(code) && final(social_link)@ == old(
                social_link,
            )@,
            None => r is Ok && final(social_link)@ == old(social_link)@.linked(
                platform,
                user,
                bump,
                handle@,
            ),
        },
{
    if !config.is_admin(admin) {
        return Err(ErrorCode::Unauthorized);
    }
    if !handle_is_short(handle.as_str()) {
        return Err(ErrorCode::HandleTooLong);
    }
    social_link.link(platform, user, bump, handle);
    Ok(())
}

/// The accounts of an order to link a Twitter handle.
#[derive(Clone, Debug, PartialEq, Eq)]
pub struct LinkTwitter {
    /// The link record of `user`: as it stands, or empty where nothing was
    /// linked yet.
    pub social_link: SocialLink,
    /// The wallet to link.
    pub user: Address,
    /// Who signs the order.
    pub admin: Address,
    /// The authority record.
    pub config: Config,
    /// The bump of the link record's address.
    pub social_link_bump: u8,
}

/// What a [`LinkTwitter`] holds.
pub struct LinkTwitterView {
    pub social_link: SocialLinkView,
    pub user: Address,
    pub admin: Address,
    pub config: Config,
    pub social_link_bump: u8,
}

impl View for LinkTwitter {
    type V = LinkTwitterView;

    open spec fn view(&self) -> LinkTwitterView {
        LinkTwitterView {
            social_link: self.social_link@,
            user: self.user,
            admin: self.admin,
            config: self.config,
            social_link_bump: self.social_link_bump,
        }
    }
}

/// Links `twitter_handle` to the user's wallet.
pub fn link_twitter(ctx: &mut LinkTwitter, twitter_handle: String) -> (r: Result<(), ErrorCode>)
    ensures
        match link_rejection(old(ctx).config, old(ctx).admin, twitter_handle@) {
            Some(code) => r == Err::<(), ErrorCode>(code) && final(ctx)@ == old(ctx)@,
            None => r is Ok && final(ctx)@ == (LinkTwitterView {
                social_link: old(ctx)@.social_link.linked(
                    Platform::Twitter,
                    old(ctx).user,
                    old(ctx).social_link_bump,
                    twitter_handle@,
                ),
                ..old(ctx)@
            }),
        },
{
    link_handle(
        &mut ctx.social_link,
        &ctx.config,
        &ctx.admin,
        ctx.user,
        ctx.social_link_bump,
        Platform::Twitter,
        twitter_handle,
    )
}

/// The accounts of an order to link an Instagram handle.
#[derive(Clone, Debug, PartialEq, Eq)]
pub struct LinkInstagram {
    /// The link record of `user`: as it stands, or empty where nothing was
    /// linked yet.
    pub social_link: SocialLink,
    /// The wallet to link.
    pub user: Address,
    /// Who signs the order.
    pub admin: Address,
    /// The authority record.
    pub config: Config,
    /// The bump of the link record's address.
    pub social_link_bump: u8,
}

/// What a [`LinkInstagram`] holds.
pub struct LinkInstagramView {
    pub social_link: SocialLinkView,
    pub user: Address,
    pub admin: Address,
    pub config: Config,
    pub social_link_bump: u8,
}

impl View for LinkInstagram {
    type V = LinkInstagramView;

    open spec fn view(&self) -> LinkInstagramView {
        LinkInstagramView {
            social_link: self.social_link@,
            user: self.user,
            admin: self.admin,
            config: self.config,
            social_link_bump: self.social_link_bump,
        }
    }
}

/// Links `instagram_handle` to the user's wallet.
pub fn link_instagram(ctx: &mut LinkInstagram, instagram_handle: String) -> (r: Result<
    (),
    ErrorCode,
>)
    ensures
        match link_rejection(old(ctx).config, old(ctx).admin, instagram_handle@) {
            Some(code) => r == Err::<(), ErrorCode>(code) && final(ctx)@ == old(ctx)@,
            None => r is Ok && final(ctx)@ == (LinkInstagramView {
                social_link: old(ctx)@.social_link.linked(
                    Platform::Instagram,
                    old(ctx).user,
                    old(ctx).social_link_bump,
                    instagram_handle@,
                ),
                ..old(ctx)@
            }),
        },
{
    link_handle(
        &mut ctx.social_link,
        &ctx.config,
        &ctx.admin,
        ctx.user,
        ctx.social_link_bump,
        Platform::Instagram,
        instagram_handle,
    )
}

/// The accounts of an order to link a LinkedIn handle.
#[derive(Clone, Debug, PartialEq, Eq)]
pub struct LinkLinkedin {
    /// The link record of `user`: as it stands, or empty where nothing was
    /// linked yet.
    pub social_link: SocialLink,
    /// The wallet to link.
    pub user: Address,
    /// Who signs the order.
    pub admin: Address,
    /// The authority record.
    pub config: Config,
    /// The bump of the link record's address.
    pub social_link_bump: u8,
}

/// What a [`LinkLinkedin`] holds.
pub struct LinkLinkedinView {
    pub social_link: SocialLinkView,
    pub user: Address,
    pub admin: Address,
    pub config: Config,
    pub social_link_bump: u8,
}

impl View for LinkLinkedin {
    type V = LinkLinkedinView;

    open spec fn view(&self) -> LinkLinkedinView {
        LinkLinkedinView {
            social_link: self.social_link@,
            user: self.user,
            admin: self.admin,
            config: self.config,
            social_link_bump: self.social_link_bump,
        }
    }
}

/// Links `linkedin_handle` to the user's wallet.
pub fn link_linkedin(ctx: &mut LinkLinkedin, linkedin_handle: String) -> (r: Result<
    (),
    ErrorCode,
>)
    ensures
        match link_rejection(old(ctx).config, old(ctx).admin, linkedin_handle@) {
            Some(code) => r == Err::<(), ErrorCode>(code) && final(ctx)@ == old(ctx)@,
            None => r is Ok && final(ctx)@ == (LinkLinkedinView {
                social_link: old(ctx)@.social_link.linked(
                    Platform::Linkedin,
                    old(ctx).user,
                    old(ctx).social_link_bump,
                    linkedin_handle@,
                ),
                ..old(ctx)@
            }),
        },
{
    link_handle(
        &mut ctx.social_link,
        &ctx.config,
        &ctx.admin,
        ctx.user,
        ctx.social_link_bump,
        Platform::Linkedin,
        linkedin_handle,
    )
}

} // verus!
