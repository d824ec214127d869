//! The escrow as a whole: every record in one place, and the four things
//! that can be done to them.
//!
//! A ledger keeps the authority record, the link records, the aggregates, the
//! payment records and the balances of the escrow holding accounts. Nothing
//! but a claim takes value out of an escrow balance. The holding accounts of
//! payers and claimers belong to the token ledger and are handed in.
//!
//! An operation that writes a new record needs the record's place, its
//! address and bump. Each such operation comes twice: once deriving the place
//! as the chain does, and once, with `_at` in its name, taking the place from
//! the caller.

use vstd::prelude::*;

use crate::address::config_address;
use crate::address::config_seeds;
use crate::address::derived;
use crate::address::payment_record_address;
use crate::address::payment_record_seeds;
use crate::address::pending_claim_address;
use crate::address::pending_claim_seeds;
use crate::address::social_link_address;
use crate::address::social_link_seeds;
use crate::address::Address;
use crate::admin::initialize;
use crate::admin::Initialize;
use crate::claim::claim_token;
use crate::claim::ClaimToken;
use crate::deposit::send_token_to_unlinked;
use crate::deposit::SendTokenToUnlinked;
use crate::error::ErrorCode;
use crate::error::Failure;
use crate::model::lemma_claimed_wf;
use crate::model::lemma_deposited_wf;
use crate::model::lemma_linked_wf;
use crate::model::lemma_reclaimed_wf;
use crate::model::LedgerView;
use crate::state::Config;
use crate::state::PaymentRecord;
use crate::state::PendingClaim;
use crate::state::Platform;
use crate::state::SocialLink;
use crate::table::PaymentKey;
use crate::table::Table;
use crate::token::TokenAccount;

verus! {

/// All records of one escrow.
pub struct Ledger {
    program_id: Address,
    authority: Address,
    config: Config,
    links: Table<Address, SocialLink>,
    claims: Table<String, PendingClaim>,
    payments: Table<PaymentKey, PaymentRecord>,
    escrow: Table<Address, u64>,
    cycles: Ghost<Map<Seq<char>, Seq<u64>>>,
}

/// What the parts of a ledger hold together.
spec fn books(
    program_id: Address,
    authority: Address,
    config: Config,
    links: Table<Address, SocialLink>,
    claims: Table<String, PendingClaim>,
    payments: Table<PaymentKey, PaymentRecord>,
    escrow: Table<Address, u64>,
    cycles: Map<Seq<char>, Seq<u64>>,
) -> LedgerView {
    LedgerView {
        program_id,
        authority,
        config,
        links: links@.map_values(|link: SocialLink| link@),
        claims: claims@.map_values(|claim: PendingClaim| claim@),
        payments: payments@.map_values(|record: PaymentRecord| record@),
        escrow: escrow@,
        cycles,
    }
}

impl View for Ledger {
    type V = LedgerView;

    closed spec fn view(&self) -> LedgerView {
        books(
            self.program_id,
            self.authority,
            self.config,
            self.links,
            self.claims,
            self.payments,
            self.escrow,
            self.cycles@,
        )
    }
}

impl Ledger {
    #[verifier::type_invariant]
    spec fn inv(self) -> bool {
        self@.wf()
    }

    /// Takes every record out of the ledger, and leaves it without any.
    fn take(&mut self) -> (taken: Ledger)
        ensures
            taken == *old(self),
    {
        let mut taken = Ledger {
            program_id: self.program_id,
            authority: self.authority,
            config: self.config,
            links: Table::new(),
            claims: Table::new(),
            payments: Table::new(),
            escrow: Table::new(),
            cycles: Ghost(Map::empty()),
        };
        std::mem::swap(self, &mut taken);
        taken
    }

    /// Sets an escrow up under the program at `program_id`, with `admin` as
    /// its admin, where `place` is the place of the authority record. Fails
    /// with `NoAddress` where there is no place.
    pub fn initialize_at(program_id: Address, admin: Address, place: Option<(Address, u8)>) -> (r:
        Result<Ledger, Failure>)
        ensures
            match place {
                Some((authority, bump)) => r matches Ok(ledger) && ledger@ == LedgerView::fresh(
                    program_id,
                    authority,
                    Config { admin, bump },
                ) && ledger@.wf(),
                None => r matches Err(failure) && failure == Failure::NoAddress,
            },
    {
        let (authority, bump) = match place {
            Some(found) => found,
            None => {
                return Err(Failure::NoAddress);
            },
        };
        let mut ctx = Initialize { config: Config::default(), admin, config_bump: bump };
        match initialize(&mut ctx) {
            Ok(()) => {},
            Err(code) => {
                return Err(Failure::Program(code));
            },
        }
        let links: Table<Address, SocialLink> = Table::new();
        let claims: Table<String, PendingClaim> = Table::new();
        let payments: Table<PaymentKey, PaymentRecord> = Table::new();
        let escrow: Table<Address, u64> = Table::new();
        proof {
            let made = books(
                program_id,
                authority,
                ctx.config,
                links,
                claims,
                payments,
                escrow,
                Map::empty(),
            );
            assert(made.links =~= Map::empty());
            assert(made.claims =~= Map::empty());
            assert(made.payments =~= Map::empty());
        }
        let ledger = Ledger {
            program_id,
            authority,
            config: ctx.config,
            links,
            claims,
            payments,
            escrow,
            cycles: Ghost(Map::empty()),
        };
        Ok(ledger)
    }

    /// Sets an escrow up under the program at `program_id`, with `admin` as
    /// its admin. The authority record lies where the chain derives its
    /// address. Fails with `NoAddress` where the chain derives none.
    pub fn initialize(program_id: Address, admin: Address) -> (r: Result<Ledger, Failure>)
        ensures
            match derived(config_seeds(), program_id) {
                Some((authority, bump)) => r matches Ok(ledger) && ledger@ == LedgerView::fresh(
                    program_id,
                    authority,
                    Config { admin, bump },
                ) && ledger@.wf(),
                None => r matches Err(failure) && failure == Failure::NoAddress,
            },
    {
        let place = config_address(&program_id);
        Ledger::initialize_at(program_id, admin, place)
    }

    /// Writes `handle` for `platform` into the link record of `user`, by order
    /// of `admin`, where `place` is the place of the link record. A wallet
    /// without a link record gets one. Where the order is turned down, the
    /// ledger does not change.
    pub fn link_handle_at(
        &mut self,
        admin: &Address,
        platform: Platform,
        user: Address,
        handle: &str,
        place: Option<(Address, u8)>,
    ) -> (r: Result<(), Failure>)
        ensures
            match old(self)@.link_rejection(*admin, handle@, place) {
                Some(failure) => r == Err::<(), Failure>(failure) && final(self)@ == old(self)@,
                None => r is Ok && final(self)@ == old(self)@.linked(
                    platform,
                    user,
                    handle@,
                    place,
                ),
            },
            final(self)@.wf(),
    {
        proof {
            use_type_invariant(&*self);
        }
        let bump: u8 = match place {
            Some((_, bump)) => bump,
            None => 0,
        };
        let mut link = match self.links.get(&user) {
            Some(link) => link.clone(),
            None => SocialLink::default(),
        };
        match crate::link::link_handle(
            &mut link,
            &self.config,
            admin,
            user,
            bump,
            platform,
            handle.to_owned(),
        ) {
            Ok(()) => {},
            Err(code) => {
                return Err(Failure::Program(code));
            },
        }
        if place.is_none() {
            return Err(Failure::NoAddress);
        }
        let ghost goal = self@.linked(platform, user, handle@, place);
        proof {
            lemma_linked_wf(self@, platform, user, handle@, place);
        }
        let Ledger { program_id, authority, config, mut links, claims, payments, escrow, cycles } =
            self.take();
        links.put(user, link);
        proof {
            let made = books(program_id, authority, config, links, claims, payments, escrow, cycles@);
            assert(made.links =~= goal.links);
            assert(made == goal);
        }
        *self = Ledger { program_id, authority, config, links, claims, payments, escrow, cycles };
        Ok(())
    }

    /// Writes `handle` for `platform` into the link record of `user`, by order
    /// of `admin`. The link record lies where the chain derives its address.
    /// Where the order is turned down, the ledger does not change.
    pub fn link_handle(&mut self, admin: &Address, platform: Platform, user: Address, handle: &str) -> (r:
        Result<(), Failure>)
        ensures
            ({
                let place = derived(social_link_seeds(user), old(self)@.program_id);
                match old(self)@.link_rejection(*admin, handle@, place) {
                    Some(failure) => r == Err::<(), Failure>(failure) && final(self)@ == old(
                        self,
                    )@,
                    None => r is Ok && final(self)@ == old(self)@.linked(
                        platform,
                        user,
                        handle@,
                        place,
                    ),
                }
            }),
            final(self)@.wf(),
    {
        let place = social_link_address(&self.program_id, &user);
        self.link_handle_at(admin, platform, user, handle, place)
    }

    /// Pays `amount` out of `sender_account` to `handle`, under a payment
    /// index of the payer's choice: the amount moves into escrow, the handle's
    /// aggregate counts it, and a payment record is written under the handle
    /// and the index. `now` is the time of the payment, and `claim_place` and
    /// `payment_place` are the places of the aggregate and of the payment
    /// record. Where the payment is turned down, neither the ledger nor the
    /// account changes.
    pub fn deposit_to_handle_at(
        &mut self,
        sender_account: &mut TokenAccount,
        handle: &str,
        amount: u64,
        payment_index: u64,
        now: i64,
        claim_place: Option<(Address, u8)>,
        payment_place: Option<(Address, u8)>,
    ) -> (r: Result<(), Failure>)
        ensures
            match old(self)@.deposit_rejection(
                *old(sender_account),
                handle@,
                amount,
                payment_index,
                claim_place,
                payment_place,
            ) {
                Some(failure) => r == Err::<(), Failure>(failure) && final(self)@ == old(self)@
                    && *final(sender_account) == *old(sender_account),
                None => r is Ok && final(self)@ == old(self)@.deposited(
                    *old(sender_account),
                    handle@,
                    amount,
                    payment_index,
                    now,
                    claim_place,
                    payment_place,
                ) && *final(sender_account) == old(sender_account).debited(amount),
            },
            final(self)@.wf(),
    {
        proof {
            use_type_invariant(&*self);
        }
        let claim_bump: u8 = match claim_place {
            Some((_, bump)) => bump,
            None => 0,
        };
        let payment_bump: u8 = match payment_place {
            Some((_, bump)) => bump,
            None => 0,
        };
        let key = handle.to_owned();
        let pending_claim = match self.claims.get(&key) {
            Some(claim) => claim.clone(),
            None => PendingClaim::default(),
        };
        let mut ctx = SendTokenToUnlinked {
            sender: sender_account.owner,
            sender_token_account: *sender_account,
            escrow_token_account: TokenAccount {
                mint: sender_account.mint,
                owner: self.authority,
                amount: self.escrow_balance(&sender_account.mint),
            },
            pending_claim,
            payment_record: PaymentRecord::default(),
            config: self.config,
            authority: self.authority,
            pending_claim_bump: claim_bump,
            payment_record_bump: payment_bump,
            unix_timestamp: now,
        };
        assert(ctx@ == old(self)@.deposit_accounts(
            *old(sender_account),
            handle@,
            now,
            claim_place,
            payment_place,
        ));
        match send_token_to_unlinked(&mut ctx, handle.to_owned(), amount, payment_index) {
            Ok(()) => {},
            Err(failure) => {
                return Err(failure);
            },
        }
        if claim_place.is_none() || payment_place.is_none() {
            return Err(Failure::NoAddress);
        }
        let payment_key = PaymentKey { handle: handle.to_owned(), index: payment_index };
        if self.payments.contains(&payment_key) {
            return Err(Failure::IndexInUse);
        }
        let mint = sender_account.mint;
        let SendTokenToUnlinked {
            sender_token_account,
            escrow_token_account,
            pending_claim,
            payment_record,
            ..
        } = ctx;
        let ghost goal = self@.deposited(
            *old(sender_account),
            handle@,
            amount,
            payment_index,
            now,
            claim_place,
            payment_place,
        );
        proof {
            lemma_deposited_wf(
                self@,
                *old(sender_account),
                handle@,
                amount,
                payment_index,
                now,
                claim_place,
                payment_place,
            );
        }
        let Ledger {
            program_id,
            authority,
            config,
            links,
            mut claims,
            mut payments,
            mut escrow,
            cycles,
        } = self.take();
        claims.put(key, pending_claim);
        payments.put(payment_key, payment_record);
        escrow.put(mint, escrow_token_account.amount);
        proof {
            let made = books(
                program_id,
                authority,
                config,
                links,
                claims,
                payments,
                escrow,
                goal.cycles,
            );
            assert(made.claims =~= goal.claims);
            assert(made.payments =~= goal.payments);
            assert(made == goal);
        }
        *self =
        Ledger {
            program_id,
            authority,
            config,
            links,
            claims,
            payments,
            escrow,
            cycles: Ghost(goal.cycles),
        };
        *sender_account = sender_token_account;
        Ok(())
    }

    /// Pays `amount` out of `sender_account` to `handle`, under a payment
    /// index of the payer's choice, at the time `now`. The aggregate and the
    /// payment record lie where the chain derives their addresses. Where the
    /// payment is turned down, neither the ledger nor the account changes.
    pub fn deposit_to_handle(
        &mut self,
        sender_account: &mut TokenAccount,
        handle: &str,
        amount: u64,
        payment_index: u64,
        now: i64,
    ) -> (r: Result<(), Failure>)
        ensures
            ({
                let claim_place = derived(pending_claim_seeds(handle@), old(self)@.program_id);
                let payment_place = derived(
                    payment_record_seeds(handle@, payment_index),
                    old(self)@.program_id,
                );
                match old(self)@.deposit_rejection(
                    *old(sender_account),
                    handle@,
                    amount,
                    payment_index,
                    claim_place,
                    payment_place,
                ) {
                    Some(failure) => r == Err::<(), Failure>(failure) && final(self)@ == old(
                        self,
                    )@ && *final(sender_account) == *old(sender_account),
                    None => r is Ok && final(self)@ == old(self)@.deposited(
                        *old(sender_account),
                        handle@,
                        amount,
                        payment_index,
                        now,
                        claim_place,
                        payment_place,
                    ) && *final(sender_account) == old(sender_account).debited(amount),
                }
            }),
            final(self)@.wf(),
    {
        let claim_place = pending_claim_address(&self.program_id, handle);
        let payment_place = payment_record_address(&self.program_id, handle, payment_index);
        self.deposit_to_handle_at(
            sender_account,
            handle,
            amount,
            payment_index,
            now,
            claim_place,
            payment_place,
        )
    }

    /// Releases all that waits for `handle` into `claimer_account`, whose
    /// owner is the claimer. The claimer's link record has to name the handle,
    /// and the handle's cycle has to be open. Where the claim is turned down,
    /// neither the ledger nor the account changes.
    pub fn claim(&mut self, claimer_account: &mut TokenAccount, handle: &str) -> (r: Result<
        (),
        Failure,
    >)
        ensures
            match old(self)@.claim_rejection(*old(claimer_account), handle@) {
                Some(failure) => r == Err::<(), Failure>(failure) && final(self)@ == old(self)@
                    && *final(claimer_account) == *old(claimer_account),
                None => r is Ok && final(self)@ == old(self)@.claimed(
                    *old(claimer_account),
                    handle@,
                ) && *final(claimer_account) == old(claimer_account).credited(
                    old(self)@.claim_of(handle@).amount,
                ),
            },
            final(self)@.wf(),
    {
        proof {
            use_type_invariant(&*self);
        }
        let social_link = match self.links.get(&claimer_account.owner) {
            Some(link) => link.clone(),
            None => {
                return Err(Failure::Program(ErrorCode::NotLinked));
            },
        };
        let key = handle.to_owned();
        if !social_link.names(&key) {
            return Err(Failure::Program(ErrorCode::NotLinked));
        }
        let pending_claim = match self.claims.get(&key) {
            Some(claim) => claim.clone(),
            None => {
                return Err(Failure::Program(ErrorCode::AlreadyClaimed));
            },
        };
        let mint = claimer_account.mint;
        let mut ctx = ClaimToken {
            claimer: claimer_account.owner,
            social_link,
            pending_claim,
            escrow_token_account: TokenAccount {
                mint,
                owner: self.authority,
                amount: self.escrow_balance(&mint),
            },
            claimer_token_account: *claimer_account,
            config: self.config,
            authority: self.authority,
        };
        assert(ctx@ == old(self)@.claim_accounts(*old(claimer_account), handle@));
        match claim_token(&mut ctx, handle.to_owned()) {
            Ok(()) => {},
            Err(failure) => {
                return Err(failure);
            },
        }
        let ClaimToken { pending_claim, escrow_token_account, claimer_token_account, .. } = ctx;
        let ghost goal = self@.claimed(*old(claimer_account), handle@);
        proof {
            lemma_claimed_wf(self@, *old(claimer_account), handle@);
        }
        let Ledger {
            program_id,
            authority,
            config,
            links,
            mut claims,
            payments,
            mut escrow,
            cycles,
        } = self.take();
        claims.put(key, pending_claim);
        escrow.put(mint, escrow_token_account.amount);
        proof {
            let made = books(program_id, authority, config, links, claims, payments, escrow, cycles@);
            assert(made.claims =~= goal.claims);
            assert(made == goal);
        }
        *self = Ledger { program_id, authority, config, links, claims, payments, escrow, cycles };
        *claimer_account = claimer_token_account;
        Ok(())
    }

    /// Drops the aggregate of `handle` from storage, by order of `admin`, and
    /// returns what was dropped. Nothing is asked of the aggregate: what it
    /// still counted stays in escrow, and no claim can reach it any more.
    /// Settle what waits for a handle before its storage is taken back.
    pub fn reclaim_storage(&mut self, admin: &Address, handle: &str) -> (r: Result<
        Option<PendingClaim>,
        Failure,
    >)
        ensures
            old(self)@.config.admin != *admin ==> r == Err::<Option<PendingClaim>, Failure>(
                Failure::Program(ErrorCode::Unauthorized),
            ) && final(self)@ == old(self)@,
            old(self)@.config.admin == *admin ==> final(self)@ == old(self)@.reclaimed(handle@)
                && match r {
                Ok(Some(dropped)) => old(self)@.claims.contains_key(handle@) && dropped@ == old(
                    self,
                )@.claims[handle@],
                Ok(None) => !old(self)@.claims.contains_key(handle@),
                Err(_) => false,
            },
            final(self)@.wf(),
    {
        proof {
            use_type_invariant(&*self);
        }
        if !self.config.is_admin(admin) {
            return Err(Failure::Program(ErrorCode::Unauthorized));
        }
        let key = handle.to_owned();
        let ghost goal = self@.reclaimed(handle@);
        proof {
            lemma_reclaimed_wf(self@, handle@);
        }
        let Ledger { program_id, authority, config, links, mut claims, payments, escrow, cycles } =
            self.take();
        let dropped = claims.remove(&key);
        proof {
            let made = books(program_id, authority, config, links, claims, payments, escrow, cycles@);
            assert(made.claims =~= goal.claims);
            assert(made == goal);
        }
        *self = Ledger { program_id, authority, config, links, claims, payments, escrow, cycles };
        Ok(dropped)
    }

    /// The address of the program that the records belong to.
    pub fn program_id(&self) -> (id: Address)
        ensures
            id == self@.program_id,
    {
        self.program_id
    }

    /// The address of the authority record.
    pub fn authority(&self) -> (authority: Address)
        ensures
            authority == self@.authority,
    {
        self.authority
    }

    /// The authority record.
    pub fn config(&self) -> (config: Config)
        ensures
            config == self@.config,
    {
        self.config
    }

    /// The link record of `user`, if there is one.
    pub fn link(&self, user: &Address) -> (found: Option<&SocialLink>)
        ensures
            match found {
                Some(link) => self@.links.contains_key(*user) && link@ == self@.links[*user],
                None => !self@.links.contains_key(*user),
            },
    {
        self.links.get(user)
    }

    /// The aggregate of `handle`, if there is one.
    pub fn pending_claim(&self, handle: &str) -> (found: Option<&PendingClaim>)
        ensures
            match found {
                Some(claim) => self@.claims.contains_key(handle@) && claim@
                    == self@.claims[handle@],
                None => !self@.claims.contains_key(handle@),
            },
    {
        let key = handle.to_owned();
        self.claims.get(&key)
    }

    /// The payment record that `handle` has under `index`, if there is one.
    pub fn payment(&self, handle: &str, index: u64) -> (found: Option<&PaymentRecord>)
        ensures
            match found {
                Some(record) => self@.payments.contains_key((handle@, index)) && record@
                    == self@.payments[(handle@, index)],
                None => !self@.payments.contains_key((handle@, index)),
            },
    {
        let key = PaymentKey { handle: handle.to_owned(), index };
        self.payments.get(&key)
    }

    /// What the escrow holds of the asset `mint`.
    pub fn escrow_balance(&self, mint: &Address) -> (amount: u64)
        ensures
            amount == self@.escrow_balance(*mint),
    {
        match self.escrow.get(mint) {
            Some(amount) => *amount,
            None => 0,
        }
    }
}

} // verus!
