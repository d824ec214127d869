//! The records that the escrow keeps, and what may happen to each.

use vstd::prelude::*;
use vstd::utf8::encode_utf8;

use crate::address::Address;
use crate::error::ErrorCode;

verus! {

/// The longest handle, in bytes, that a record holds.
pub const MAX_HANDLE_LEN: usize = 30;

/// Whether a handle is short enough for a record. Handles are compared and
/// measured as the bytes of their UTF-8 form.
pub open spec fn handle_fits(handle: Seq<char>) -> bool {
    encode_utf8(handle).len() <= MAX_HANDLE_LEN
}

/// Tells whether a handle is short enough for a record.
pub fn handle_is_short(handle: &str) -> (fits: bool)
    ensures
        fits == handle_fits(handle@),
{
    handle.as_bytes().len() <= MAX_HANDLE_LEN
}

/// A handle takes at least one byte for each of its characters.
pub proof fn lemma_handle_bytes(handle: Seq<char>)
    ensures
        encode_utf8(handle).len() >= handle.len(),
    decreases handle.len(),
{
    if handle.len() > 0 {
        lemma_handle_bytes(handle.drop_first());
    }
}

/// The social network that a handle belongs to.
#[derive(Clone, Copy, Debug, PartialEq, Eq, Structural)]
pub enum Platform {
    Twitter,
    Instagram,
    Linkedin,
}

/// The authority record: who the admin is, and the bump of the record's own
/// address. There is one, written once.
#[derive(Clone, Copy, Debug, PartialEq, Eq)]
pub struct Config {
    pub admin: Address,
    pub bump: u8,
}

impl Config {
    /// Tells whether `signer` is the admin.
    pub fn is_admin(&self, signer: &Address) -> (r: bool)
        ensures
            r == (self.admin == *signer),
    {
        self.admin == *signer
    }
}

impl Default for Config {
    fn default() -> (config: Config)
        ensures
            config == (Config { admin: Address::zero(), bump: 0 }),
    {
        Config { admin: Address::default(), bump: 0 }
    }
}

/// The link record of one wallet: the handle it holds on each platform, empty
/// where it holds none.
#[derive(Debug, PartialEq, Eq)]
pub struct SocialLink {
    pub owner: Address,
    pub twitter: String,
    pub instagram: String,
    pub linkedin: String,
    pub bump: u8,
}

/// What a [`SocialLink`] holds.
pub struct SocialLinkView {
    pub owner: Address,
    pub twitter: Seq<char>,
    pub instagram: Seq<char>,
    pub linkedin: Seq<char>,
    pub bump: u8,
}

impl View for SocialLink {
    type V = SocialLinkView;

    open spec fn view(&self) -> SocialLinkView {
        SocialLinkView {
            owner: self.owner,
            twitter: self.twitter@,
            instagram: self.instagram@,
            linkedin: self.linkedin@,
            bump: self.bump,
        }
    }
}

impl SocialLinkView {
    /// The record before anything was linked.
    pub open spec fn empty() -> SocialLinkView {
        SocialLinkView {
            owner: Address::zero(),
            twitter: Seq::empty(),
            instagram: Seq::empty(),
            linkedin: Seq::empty(),
            bump: 0,
        }
    }

    /// Whether one of the three handles is exactly `handle`.
    pub open spec fn names(self, handle: Seq<char>) -> bool {
        self.twitter == handle || self.instagram == handle || self.linkedin == handle
    }

    /// The record after `handle` was written for `platform`. A record that
    /// nobody owns yet is given to `user`, with the bump of its address.
    pub open spec fn linked(
        self,
        platform: Platform,
        user: Address,
        bump: u8,
        handle: Seq<char>,
    ) -> SocialLinkView {
        let fresh = self.owner == Address::zero();
        let owned = SocialLinkView {
            owner: if fresh { user } else { self.owner },
            bump: if fresh { bump } else { self.bump },
            ..self
        };
        match platform {
            Platform::Twitter => SocialLinkView { twitter: handle, ..owned },
            Platform::Instagram => SocialLinkView { instagram: handle, ..owned },
            Platform::Linkedin => SocialLinkView { linkedin: handle, ..owned },
        }
    }
}

impl Default for SocialLink {
    fn default() -> (link: SocialLink)
        ensures
            link@ == SocialLinkView::empty(),
    {
        SocialLink {
            owner: Address::default(),
            twitter: String::new(),
            instagram: String::new(),
            linkedin: String::new(),
            bump: 0,
        }
    }
}

impl Clone for SocialLink {
    fn clone(&self) -> (copy: SocialLink)
        ensures
            copy@ == self@,
    {
        SocialLink {
            owner: self.owner,
            twitter: self.twitter.clone(),
            instagram: self.instagram.clone(),
            linkedin: self.linkedin.clone(),
            bump: self.bump,
        }
    }
}

impl SocialLink {
    /// Tells whether one of the three handles is exactly `handle`.
    pub fn names(&self, handle: &String) -> (r: bool)
        ensures
            r == self@.names(handle@),
    {
        self.twitter == *handle || self.instagram == *handle || self.linkedin == *handle
    }

    /// Writes `handle` for `platform`, and gives a record that nobody owns yet
    /// to `user`.
    pub fn link(&mut self, platform: Platform, user: Address, bump: u8, handle: String)
        ensures
            final(self)@ == old(self)@.linked(platform, user, bump, handle@),
    {
        if self.owner.is_zero() {
            self.owner = user;
            self.bump = bump;
        }
        match platform {
            Platform::Twitter => {
                self.twitter = handle;
            },
            Platform::Instagram => {
                self.instagram = handle;
            },
            Platform::Linkedin => {
                self.linkedin = handle;
            },
        }
    }
}

/// The aggregate of one handle: what waits in escrow for it, and from how
/// many payments. A cycle opens with the first payment to a handle that has
/// nothing waiting, and ends when the aggregate is claimed.
#[derive(Debug, PartialEq, Eq)]
pub struct PendingClaim {
    pub social_handle: String,
    pub amount: u64,
    pub claimed: bool,
    pub payment_count: u64,
    pub bump: u8,
}

/// What a [`PendingClaim`] holds.
pub struct PendingClaimView {
    pub social_handle: Seq<char>,
    pub amount: u64,
    pub claimed: bool,
    pub payment_count: u64,
    pub bump: u8,
}

impl View for PendingClaim {
    type V = PendingClaimView;

    open spec fn view(&self) -> PendingClaimView {
        PendingClaimView {
            social_handle: self.social_handle@,
            amount: self.amount,
            claimed: self.claimed,
            payment_count: self.payment_count,
            bump: self.bump,
        }
    }
}

impl PendingClaimView {
    /// The aggregate of a handle that was never paid.
    pub open spec fn empty() -> PendingClaimView {
        PendingClaimView {
            social_handle: Seq::empty(),
            amount: 0,
            claimed: false,
            payment_count: 0,
            bump: 0,
        }
    }

    /// Whether a cycle is open: something waits and was not claimed.
    pub open spec fn is_open(self) -> bool {
        !self.claimed && self.amount > 0
    }

    /// Whether a payment of `amount` can be counted: either it opens a cycle,
    /// or the total and the count of the open cycle have room for it.
    pub open spec fn has_room(self, amount: u64) -> bool {
        self.is_open() ==> self.amount + amount <= u64::MAX && self.payment_count + 1 <= u64::MAX
    }

    /// The aggregate after a payment of `amount` to `handle` was counted. An
    /// open cycle grows by it; otherwise a cycle opens for `handle` with this
    /// one payment.
    pub open spec fn credited(self, handle: Seq<char>, amount: u64, bump: u8) -> PendingClaimView {
        if self.is_open() {
            PendingClaimView {
                amount: (self.amount + amount) as u64,
                payment_count: (self.payment_count + 1) as u64,
                ..self
            }
        } else {
            PendingClaimView {
                social_handle: handle,
                amount,
                claimed: false,
                payment_count: 1,
                bump,
            }
        }
    }

    /// The aggregate after its cycle was claimed. The total and the count stay
    /// as a note of what was released.
    pub open spec fn released(self) -> PendingClaimView {
        PendingClaimView { claimed: true, ..self }
    }
}

impl Default for PendingClaim {
    fn default() -> (claim: PendingClaim)
        ensures
            claim@ == PendingClaimView::empty(),
    {
        PendingClaim {
            social_handle: String::new(),
            amount: 0,
            claimed: false,
            payment_count: 0,
            bump: 0,
        }
    }
}

impl Clone for PendingClaim {
    fn clone(&self) -> (copy: PendingClaim)
        ensures
            copy@ == self@,
    {
        PendingClaim {
            social_handle: self.social_handle.clone(),
            amount: self.amount,
            claimed: self.claimed,
            payment_count: self.payment_count,
            bump: self.bump,
        }
    }
}

impl PendingClaim {
    /// Counts a payment of `amount` to `handle`. Fails with `InvalidAmount`,
    /// and changes nothing, where the open cycle has no room for it.
    pub fn credit(&mut self, handle: &String, amount: u64, bump: u8) -> (r: Result<(), ErrorCode>)
        ensures
            old(self)@.has_room(amount) ==> r is Ok && final(self)@ == old(self)@.credited(
                handle@,
                amount,
                bump,
            ),
            !old(self)@.has_room(amount) ==> r == Err::<(), ErrorCode>(ErrorCode::InvalidAmount)
                && final(self)@ == old(self)@,
    {
        if self.claimed || self.amount == 0 {
            self.social_handle = handle.clone();
            self.amount = amount;
            self.claimed = false;
            self.payment_count = 1;
            self.bump = bump;
            Ok(())
        } else {
            let total = match self.amount.checked_add(amount) {
                Some(total) => total,
                None => {
                    return Err(ErrorCode::InvalidAmount);
                },
            };
            let count = match self.payment_count.checked_add(1) {
                Some(count) => count,
                None => {
                    return Err(ErrorCode::InvalidAmount);
                },
            };
            self.amount = total;
            self.payment_count = count;
            Ok(())
        }
    }

    /// Marks the cycle as claimed.
    pub fn release(&mut self)
        ensures
            final(self)@ == old(self)@.released(),
    {
        self.claimed = true;
    }
}

/// The record of one payment to a handle, kept as history. `claimed` is
/// written as `false` when the payment is made and never again: it does not
/// tell whether the payment was paid out.
#[derive(Debug, PartialEq, Eq)]
pub struct PaymentRecord {
    pub sender: Address,
    pub social_handle: String,
    pub amount: u64,
    pub timestamp: i64,
    pub claimed: bool,
    pub bump: u8,
}

/// What a [`PaymentRecord`] holds.
pub struct PaymentRecordView {
    pub sender: Address,
    pub social_handle: Seq<char>,
    pub amount: u64,
    pub timestamp: i64,
    pub claimed: bool,
    pub bump: u8,
}

impl View for PaymentRecord {
    type V = PaymentRecordView;

    open spec fn view(&self) -> PaymentRecordView {
        PaymentRecordView {
            sender: self.sender,
            social_handle: self.social_handle@,
            amount: self.amount,
            timestamp: self.timestamp,
            claimed: self.claimed,
            bump: self.bump,
        }
    }
}

impl PaymentRecordView {
    /// The record before a payment was written into it.
    pub open spec fn empty() -> PaymentRecordView {
        PaymentRecordView {
            sender: Address::zero(),
            social_handle: Seq::empty(),
            amount: 0,
            timestamp: 0,
            claimed: false,
            bump: 0,
        }
    }

    /// The record of a payment of `amount` that `sender` made to `handle` at
    /// `timestamp`.
    pub open spec fn of(
        sender: Address,
        handle: Seq<char>,
        amount: u64,
        timestamp: i64,
        bump: u8,
    ) -> PaymentRecordView {
        PaymentRecordView { sender, social_handle: handle, amount, timestamp, claimed: false, bump }
    }
}

impl Default for PaymentRecord {
    fn default() -> (record: PaymentRecord)
        ensures
            record@ == PaymentRecordView::empty(),
    {
        PaymentRecord {
            sender: Address::default(),
            social_handle: String::new(),
            amount: 0,
            timestamp: 0,
            claimed: false,
            bump: 0,
        }
    }
}

impl Clone for PaymentRecord {
    fn clone(&self) -> (copy: PaymentRecord)
        ensures
            copy@ == self@,
    {
        PaymentRecord {
            sender: self.sender,
            social_handle: self.social_handle.clone(),
            amount: self.amount,
            timestamp: self.timestamp,
            claimed: self.claimed,
            bump: self.bump,
        }
    }
}

} // verus!
