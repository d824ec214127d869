//! What a ledger holds, and what each of the four operations makes of it.

use vstd::prelude::*;

use crate::address::Address;
use crate::claim::ClaimTokenView;
use crate::deposit::SendTokenToUnlinkedView;
use crate::error::ErrorCode;
use crate::error::Failure;
use crate::link::link_rejection;
use crate::state::Config;
use crate::state::PaymentRecordView;
use crate::state::PendingClaimView;
use crate::state::Platform;
use crate::state::SocialLinkView;
use crate::token::TokenAccount;

verus! {

/// What a [`crate::ledger::Ledger`] holds.
pub struct LedgerView {
    /// The address of the program that the records belong to.
    pub program_id: Address,
    /// The address of the authority record, which owns the escrow holding
    /// accounts.
    pub authority: Address,
    /// The authority record.
    pub config: Config,
    /// The link record of each wallet that has one.
    pub links: Map<Address, SocialLinkView>,
    /// The aggregate of each handle that has one.
    pub claims: Map<Seq<char>, PendingClaimView>,
    /// The payment record under each handle and payment index.
    pub payments: Map<(Seq<char>, u64), PaymentRecordView>,
    /// The balance of the escrow holding account of each asset.
    pub escrow: Map<Address, u64>,
    /// For each handle, the payment indexes of its latest cycle, in the order
    /// of payment.
    pub cycles: Map<Seq<char>, Seq<u64>>,
}

/// The bump of a record's place: of its address and bump, where it has one.
pub open spec fn bump_at(place: Option<(Address, u8)>) -> u8 {
    match place {
        Some((_, bump)) => bump,
        None => 0,
    }
}

/// What the payment records of `handle` under `indexes` add up to.
pub open spec fn paid_total(
    payments: Map<(Seq<char>, u64), PaymentRecordView>,
    handle: Seq<char>,
    indexes: Seq<u64>,
) -> int
    decreases indexes.len(),
{
    if indexes.len() == 0 {
        0
    } else {
        paid_total(payments, handle, indexes.drop_last()) + payments[(
            handle,
            indexes.last(),
        )].amount
    }
}

impl LedgerView {
    /// The payment indexes of the latest cycle of `handle`.
    pub open spec fn cycle_of(self, handle: Seq<char>) -> Seq<u64> {
        if self.cycles.contains_key(handle) {
            self.cycles[handle]
        } else {
            Seq::empty()
        }
    }

    /// Whether the aggregate of `handle` agrees with the payment records of
    /// its cycle: it counts each of them once, and its total is their sum.
    pub open spec fn adds_up(self, handle: Seq<char>) -> bool {
        let indexes = self.cycle_of(handle);
        &&& indexes.no_duplicates()
        &&& forall|k: int|
            0 <= k < indexes.len() ==> self.payments.contains_key((handle, #[trigger] indexes[k]))
        &&& self.claims[handle].payment_count == indexes.len()
        &&& self.claims[handle].amount == paid_total(self.payments, handle, indexes)
    }

    /// Whether the books are in order: each record is kept under its own key,
    /// each aggregate counts at least one payment, and each open cycle adds
    /// up.
    pub open spec fn wf(self) -> bool {
        &&& forall|user: Address|
            self.links.contains_key(user) ==> (#[trigger] self.links[user]).owner == user
        &&& forall|handle: Seq<char>|
            self.claims.contains_key(handle) ==> {
                &&& (#[trigger] self.claims[handle]).social_handle == handle
                &&& self.claims[handle].amount > 0
                &&& self.claims[handle].payment_count > 0
            }
        &&& forall|handle: Seq<char>, index: u64|
            self.payments.contains_key((handle, index)) ==> (#[trigger] self.payments[(
                handle,
                index,
            )]).social_handle == handle
        &&& forall|handle: Seq<char>|
            self.claims.contains_key(handle) && (#[trigger] self.claims[handle]).is_open()
                ==> self.adds_up(handle)
    }

    /// The ledger right after setup, with no record but the authority
    /// record.
    pub open spec fn fresh(program_id: Address, authority: Address, config: Config) -> LedgerView {
        LedgerView {
            program_id,
            authority,
            config,
            links: Map::empty(),
            claims: Map::empty(),
            payments: Map::empty(),
            escrow: Map::empty(),
            cycles: Map::empty(),
        }
    }

    /// The link record of `user`, empty where nothing was linked.
    pub open spec fn link_of(self, user: Address) -> SocialLinkView {
        if self.links.contains_key(user) {
            self.links[user]
        } else {
            SocialLinkView::empty()
        }
    }

    /// The aggregate of `handle`, empty where the handle has none.
    pub open spec fn claim_of(self, handle: Seq<char>) -> PendingClaimView {
        if self.claims.contains_key(handle) {
            self.claims[handle]
        } else {
            PendingClaimView::empty()
        }
    }

    /// What the escrow holds of the asset `mint`.
    pub open spec fn escrow_balance(self, mint: Address) -> u64 {
        if self.escrow.contains_key(mint) {
            self.escrow[mint]
        } else {
            0
        }
    }

    /// The escrow holding account of the asset `mint`.
    pub open spec fn escrow_account(self, mint: Address) -> TokenAccount {
        TokenAccount { mint, owner: self.authority, amount: self.escrow_balance(mint) }
    }

    /// Why the order of `admin` to link `handle` is turned down, if it is,
    /// where `place` is the place of the link record: the order itself is
    /// looked at first, then whether the record has a place.
    pub open spec fn link_rejection(
        self,
        admin: Address,
        handle: Seq<char>,
        place: Option<(Address, u8)>,
    ) -> Option<Failure> {
        match link_rejection(self.config, admin, handle) {
            Some(code) => Some(Failure::Program(code)),
            None => if place is Some {
                None
            } else {
                Some(Failure::NoAddress)
            },
        }
    }

    /// The ledger after `handle` was linked to `user` for `platform`, where
    /// `place` is the place of the link record.
    pub open spec fn linked(
        self,
        platform: Platform,
        user: Address,
        handle: Seq<char>,
        place: Option<(Address, u8)>,
    ) -> LedgerView {
        LedgerView {
            links: self.links.insert(
                user,
                self.link_of(user).linked(platform, user, bump_at(place), handle),
            ),
            ..self
        }
    }

    /// The accounts of a payment to `handle` out of `sender_account` at the
    /// time `now`, where `claim_place` and `payment_place` are the places of
    /// the aggregate and of the payment record.
    pub open spec fn deposit_accounts(
        self,
        sender_account: TokenAccount,
        handle: Seq<char>,
        now: i64,
        claim_place: Option<(Address, u8)>,
        payment_place: Option<(Address, u8)>,
    ) -> SendTokenToUnlinkedView {
        SendTokenToUnlinkedView {
            sender: sender_account.owner,
            sender_token_account: sender_account,
            escrow_token_account: self.escrow_account(sender_account.mint),
            pending_claim: self.claim_of(handle),
            payment_record: PaymentRecordView::empty(),
            config: self.config,
            authority: self.authority,
            pending_claim_bump: bump_at(claim_place),
            payment_record_bump: bump_at(payment_place),
            unix_timestamp: now,
        }
    }

    /// Why a payment of `amount` to `handle` under `index` is turned down, if
    /// it is: for what the payment itself lacks first, then for a record
    /// without a place, and last for an index that the handle has used. The
    /// time of the payment plays no part.
    pub open spec fn deposit_rejection(
        self,
        sender_account: TokenAccount,
        handle: Seq<char>,
        amount: u64,
        index: u64,
        claim_place: Option<(Address, u8)>,
        payment_place: Option<(Address, u8)>,
    ) -> Option<Failure> {
        match self.deposit_accounts(sender_account, handle, 0, claim_place, payment_place).rejection(
            handle,
            amount,
        ) {
            Some(failure) => Some(failure),
            None => if claim_place is None || payment_place is None {
                Some(Failure::NoAddress)
            } else if self.payments.contains_key((handle, index)) {
                Some(Failure::IndexInUse)
            } else {
                None
            },
        }
    }

    /// The ledger after a payment of `amount` to `handle` under `index`.
    pub open spec fn deposited(
        self,
        sender_account: TokenAccount,
        handle: Seq<char>,
        amount: u64,
        index: u64,
        now: i64,
        claim_place: Option<(Address, u8)>,
        payment_place: Option<(Address, u8)>,
    ) -> LedgerView {
        let after = self.deposit_accounts(
            sender_account,
            handle,
            now,
            claim_place,
            payment_place,
        ).paid(handle, amount);
        LedgerView {
            claims: self.claims.insert(handle, after.pending_claim),
            payments: self.payments.insert((handle, index), after.payment_record),
            escrow: self.escrow.insert(sender_account.mint, after.escrow_token_account.amount),
            cycles: self.cycles.insert(
                handle,
                if self.claim_of(handle).is_open() {
                    self.cycle_of(handle).push(index)
                } else {
                    seq![index]
                },
            ),
            ..self
        }
    }

    /// The accounts of a claim of `handle` into `claimer_account`.
    pub open spec fn claim_accounts(
        self,
        claimer_account: TokenAccount,
        handle: Seq<char>,
    ) -> ClaimTokenView {
        ClaimTokenView {
            claimer: claimer_account.owner,
            social_link: self.link_of(claimer_account.owner),
            pending_claim: self.claim_of(handle),
            escrow_token_account: self.escrow_account(claimer_account.mint),
            claimer_token_account: claimer_account,
            config: self.config,
            authority: self.authority,
        }
    }

    /// Why a claim of `handle` into `claimer_account` is turned down, if it
    /// is: a claimer without a link record that names the handle is not
    /// linked, and a handle without an aggregate has nothing left to claim.
    pub open spec fn claim_rejection(self, claimer_account: TokenAccount, handle: Seq<char>) -> Option<
        Failure,
    > {
        if !(self.links.contains_key(claimer_account.owner)
            && self.links[claimer_account.owner].names(handle)) {
            Some(Failure::Program(ErrorCode::NotLinked))
        } else if !self.claims.contains_key(handle) {
            Some(Failure::Program(ErrorCode::AlreadyClaimed))
        } else {
            self.claim_accounts(claimer_account, handle).rejection(handle)
        }
    }

    /// The ledger after `handle` was claimed into `claimer_account`.
    pub open spec fn claimed(self, claimer_account: TokenAccount, handle: Seq<char>) -> LedgerView {
        let after = self.claim_accounts(claimer_account, handle).claimed();
        LedgerView {
            claims: self.claims.insert(handle, after.pending_claim),
            escrow: self.escrow.insert(claimer_account.mint, after.escrow_token_account.amount),
            ..self
        }
    }

    /// The ledger after the aggregate of `handle` was dropped.
    pub open spec fn reclaimed(self, handle: Seq<char>) -> LedgerView {
        LedgerView { claims: self.claims.remove(handle), ..self }
    }
}

/// Payment records that agree under every index of a list add up to the same.
pub proof fn lemma_same_records_same_total(
    before: Map<(Seq<char>, u64), PaymentRecordView>,
    after: Map<(Seq<char>, u64), PaymentRecordView>,
    handle: Seq<char>,
    indexes: Seq<u64>,
)
    requires
        forall|k: int|
            0 <= k < indexes.len() ==> before[(handle, #[trigger] indexes[k])] == after[(
                handle,
                indexes[k],
            )],
    ensures
        paid_total(before, handle, indexes) == paid_total(after, handle, indexes),
    decreases indexes.len(),
{
    if indexes.len() > 0 {
        let shorter = indexes.drop_last();
        assert forall|k: int| 0 <= k < shorter.len() implies before[(handle, #[trigger] shorter[k])]
            == after[(handle, shorter[k])] by {
            assert(shorter[k] == indexes[k]);
        }
        lemma_same_records_same_total(before, after, handle, shorter);
        assert(indexes.last() == indexes[indexes.len() - 1]);
    }
}

/// Linking keeps the books in order.
pub proof fn lemma_linked_wf(
    ledger: LedgerView,
    platform: Platform,
    user: Address,
    handle: Seq<char>,
    place: Option<(Address, u8)>,
)
    requires
        ledger.wf(),
    ensures
        ledger.linked(platform, user, handle, place).wf(),
{
    let after = ledger.linked(platform, user, handle, place);
    assert forall|h: Seq<char>|
        after.claims.contains_key(h) && (#[trigger] after.claims[h]).is_open() implies after.adds_up(
        h,
    ) by {
        assert(ledger.adds_up(h));
    }
}

/// A payment keeps the books in order.
pub proof fn lemma_deposited_wf(
    ledger: LedgerView,
    sender_account: TokenAccount,
    handle: Seq<char>,
    amount: u64,
    index: u64,
    now: i64,
    claim_place: Option<(Address, u8)>,
    payment_place: Option<(Address, u8)>,
)
    requires
        ledger.wf(),
        ledger.deposit_rejection(sender_account, handle, amount, index, claim_place, payment_place)
            is None,
    ensures
        ledger.deposited(
            sender_account,
            handle,
            amount,
            index,
            now,
            claim_place,
            payment_place,
        ).wf(),
{
    let after = ledger.deposited(
        sender_account,
        handle,
        amount,
        index,
        now,
        claim_place,
        payment_place,
    );
    assert forall|h: Seq<char>|
        after.claims.contains_key(h) && (#[trigger] after.claims[h]).is_open() implies after.adds_up(
        h,
    ) by {
        if h == handle {
            let new_indexes = after.cycle_of(handle);
            if ledger.claim_of(handle).is_open() {
                let old_indexes = ledger.cycle_of(handle);
                assert(ledger.adds_up(handle));
                assert(new_indexes == old_indexes.push(index));
                assert(new_indexes.drop_last() =~= old_indexes);
                assert forall|k: int| 0 <= k < old_indexes.len() implies ledger.payments[(
                    handle,
                    #[trigger] old_indexes[k],
                )] == after.payments[(handle, old_indexes[k])] by {
                    assert(ledger.payments.contains_key((handle, old_indexes[k])));
                }
                lemma_same_records_same_total(
                    ledger.payments,
                    after.payments,
                    handle,
                    old_indexes,
                );
                assert forall|a: int, b: int|
                    0 <= a < new_indexes.len() && 0 <= b < new_indexes.len() && a
                        != b implies new_indexes[a] != new_indexes[b] by {
                    if a < old_indexes.len() {
                        assert(ledger.payments.contains_key((handle, old_indexes[a])));
                    }
                    if b < old_indexes.len() {
                        assert(ledger.payments.contains_key((handle, old_indexes[b])));
                    }
                }
                assert forall|k: int| 0 <= k < new_indexes.len() implies after.payments.contains_key(
                    (handle, #[trigger] new_indexes[k]),
                ) by {
                    if k < old_indexes.len() {
                        assert(ledger.payments.contains_key((handle, old_indexes[k])));
                    }
                }
            } else {
                assert(new_indexes == seq![index]);
                assert(new_indexes.drop_last() =~= Seq::<u64>::empty());
                assert(paid_total(after.payments, handle, Seq::<u64>::empty()) == 0);
                assert(paid_total(after.payments, handle, new_indexes) == amount);
            }
        } else {
            let indexes = ledger.cycle_of(h);
            assert(ledger.adds_up(h));
            assert(after.cycle_of(h) == indexes);
            lemma_same_records_same_total(ledger.payments, after.payments, h, indexes);
        }
    }
}

/// A claim keeps the books in order.
pub proof fn lemma_claimed_wf(ledger: LedgerView, claimer_account: TokenAccount, handle: Seq<char>)
    requires
        ledger.wf(),
        ledger.claim_rejection(claimer_account, handle) is None,
    ensures
        ledger.claimed(claimer_account, handle).wf(),
{
    let after = ledger.claimed(claimer_account, handle);
    assert forall|h: Seq<char>|
        after.claims.contains_key(h) && (#[trigger] after.claims[h]).is_open() implies after.adds_up(
        h,
    ) by {
        assert(h != handle);
        assert(ledger.adds_up(h));
    }
}

/// Dropping an aggregate keeps the books in order.
pub proof fn lemma_reclaimed_wf(ledger: LedgerView, handle: Seq<char>)
    requires
        ledger.wf(),
    ensures
        ledger.reclaimed(handle).wf(),
{
    let after = ledger.reclaimed(handle);
    assert forall|h: Seq<char>|
        after.claims.contains_key(h) && (#[trigger] after.claims[h]).is_open() implies after.adds_up(
        h,
    ) by {
        assert(ledger.adds_up(h));
    }
}

} // verus!
