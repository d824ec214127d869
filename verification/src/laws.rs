//! What holds of every ledger, whatever was done to it before.
//!
//! Each law speaks of the ledger before an operation and of the ledger after
//! it, as the operations of [`crate::ledger::Ledger`] promise them. The
//! places of the records that an operation writes are free: a law holds
//! wherever the records lie.

use vstd::prelude::*;

use vstd::bytes::lemma_auto_spec_u64_to_from_le_bytes;
use vstd::bytes::spec_u64_from_le_bytes;
use vstd::bytes::spec_u64_to_le_bytes;
use vstd::utf8::decode_utf8;
use vstd::utf8::encode_utf8;
use vstd::utf8::encode_utf8_decode_utf8;

use crate::address::config_seeds;
use crate::address::payment_record_seeds;
use crate::address::pending_claim_seeds;
use crate::address::social_link_seeds;
use crate::address::Address;
use crate::error::ErrorCode;
use crate::error::Failure;
use crate::model::bump_at;
use crate::model::paid_total;
use crate::model::LedgerView;
use crate::state::handle_fits;
use crate::state::lemma_handle_bytes;
use crate::state::PendingClaimView;
use crate::state::Platform;
use crate::token::TokenAccount;

verus! {

/// No two records are derived from the same seeds: the seeds tell the kind
/// of a record, and within a kind the wallet, the handle, or the handle and
/// the payment index.
pub proof fn law_seeds_tell_records_apart(
    user: Address,
    other_user: Address,
    handle: Seq<char>,
    other_handle: Seq<char>,
    index: u64,
    other_index: u64,
)
    ensures
        config_seeds() != social_link_seeds(user),
        config_seeds() != pending_claim_seeds(handle),
        config_seeds() != payment_record_seeds(handle, index),
        social_link_seeds(user) != pending_claim_seeds(handle),
        social_link_seeds(user) != payment_record_seeds(handle, index),
        pending_claim_seeds(handle) != payment_record_seeds(other_handle, index),
        social_link_seeds(user) == social_link_seeds(other_user) ==> user == other_user,
        pending_claim_seeds(handle) == pending_claim_seeds(other_handle) ==> handle
            == other_handle,
        payment_record_seeds(handle, index) == payment_record_seeds(other_handle, other_index)
            ==> handle == other_handle && index == other_index,
{
    assert(config_seeds().len() == 1);
    assert(social_link_seeds(user).len() == 2);
    assert(pending_claim_seeds(handle).len() == 2);
    assert(payment_record_seeds(handle, index).len() == 3);
    assert(payment_record_seeds(other_handle, index).len() == 3);
    assert(social_link_seeds(user) != pending_claim_seeds(handle)) by {
        reveal_strlit("social_link");
        reveal_strlit("pending_claim");
        vstd::utf8::is_ascii_chars_encode_utf8("social_link"@);
        vstd::utf8::is_ascii_chars_encode_utf8("pending_claim"@);
        assert(social_link_seeds(user)[0].len() == 11);
        assert(pending_claim_seeds(handle)[0].len() == 13);
    }
    if social_link_seeds(user) == social_link_seeds(other_user) {
        assert(social_link_seeds(user)[1] == social_link_seeds(other_user)[1]);
        assert(user.bytes =~= other_user.bytes);
    }
    if pending_claim_seeds(handle) == pending_claim_seeds(other_handle) {
        assert(pending_claim_seeds(handle)[1] == pending_claim_seeds(other_handle)[1]);
        encode_utf8_decode_utf8(handle);
        encode_utf8_decode_utf8(other_handle);
        assert(decode_utf8(encode_utf8(handle)) == decode_utf8(encode_utf8(other_handle)));
    }
    if payment_record_seeds(handle, index) == payment_record_seeds(other_handle, other_index) {
        let one = payment_record_seeds(handle, index);
        let other = payment_record_seeds(other_handle, other_index);
        assert(one[1] == other[1]);
        assert(one[2] == other[2]);
        encode_utf8_decode_utf8(handle);
        encode_utf8_decode_utf8(other_handle);
        assert(decode_utf8(encode_utf8(handle)) == decode_utf8(encode_utf8(other_handle)));
        lemma_auto_spec_u64_to_from_le_bytes();
        assert(spec_u64_from_le_bytes(spec_u64_to_le_bytes(index)) == spec_u64_from_le_bytes(
            spec_u64_to_le_bytes(other_index),
        ));
    }
}

/// Two payments in a row to a handle with nothing waiting add up: the
/// aggregate holds their sum from two payments, and each has a payment record
/// of its own.
pub proof fn law_payments_add_up(
    ledger: LedgerView,
    first: TokenAccount,
    second: TokenAccount,
    handle: Seq<char>,
    a: u64,
    b: u64,
    i: u64,
    j: u64,
    t: i64,
    u: i64,
    claim_place: Option<(Address, u8)>,
    first_place: Option<(Address, u8)>,
    second_place: Option<(Address, u8)>,
)
    requires
        ledger.wf(),
        !ledger.claim_of(handle).is_open(),
        ledger.deposit_rejection(first, handle, a, i, claim_place, first_place) is None,
        ledger.deposited(first, handle, a, i, t, claim_place, first_place).deposit_rejection(
            second,
            handle,
            b,
            j,
            claim_place,
            second_place,
        ) is None,
    ensures
        ({
            let after = ledger.deposited(
                first,
                handle,
                a,
                i,
                t,
                claim_place,
                first_place,
            ).deposited(second, handle, b, j, u, claim_place, second_place);
            &&& after.claims.contains_key(handle)
            &&& after.claims[handle].amount == a + b
            &&& after.claims[handle].payment_count == 2
            &&& !after.claims[handle].claimed
            &&& i != j
            &&& after.payments.contains_key((handle, i))
            &&& after.payments[(handle, i)].amount == a
            &&& after.payments.contains_key((handle, j))
            &&& after.payments[(handle, j)].amount == b
        }),
{
}

/// An aggregate is in one of two states: its cycle is open, with something
/// waiting, or it was claimed. A handle that was never paid, or whose
/// storage was taken back, has no aggregate.
pub proof fn law_open_or_claimed(ledger: LedgerView, handle: Seq<char>)
    requires
        ledger.wf(),
        ledger.claims.contains_key(handle),
    ensures
        ledger.claims[handle].is_open() != ledger.claims[handle].claimed,
        ledger.claims[handle].amount > 0,
        ledger.claims[handle].payment_count > 0,
{
}

/// A claim pays the whole aggregate to the claimer and takes as much out of
/// escrow. After it the cycle is closed: whoever claims the handle next, with
/// whatever account, is turned down, and a claimer that is linked to the
/// handle is told that it was claimed already.
pub proof fn law_released_once(
    ledger: LedgerView,
    claimer_account: TokenAccount,
    next: TokenAccount,
    handle: Seq<char>,
)
    requires
        ledger.wf(),
        ledger.claim_rejection(claimer_account, handle) is None,
    ensures
        ({
            let paid = ledger.claims[handle].amount;
            let after = ledger.claimed(claimer_account, handle);
            &&& claimer_account.credited(paid).amount == claimer_account.amount + paid
            &&& after.escrow_balance(claimer_account.mint) == ledger.escrow_balance(
                claimer_account.mint,
            ) - paid
            &&& after.claims[handle] == ledger.claims[handle].released()
            &&& after.claim_rejection(next, handle) is Some
            &&& after.links.contains_key(next.owner) && after.links[next.owner].names(handle)
                ==> after.claim_rejection(next, handle) == Some(
                Failure::Program(ErrorCode::AlreadyClaimed),
            )
        }),
{
}

/// A payment to a handle whose cycle was claimed opens a new cycle: the
/// aggregate holds this payment alone, not the old total.
pub proof fn law_payment_rearms(
    ledger: LedgerView,
    sender_account: TokenAccount,
    handle: Seq<char>,
    amount: u64,
    index: u64,
    now: i64,
    claim_place: Option<(Address, u8)>,
    payment_place: Option<(Address, u8)>,
)
    requires
        ledger.wf(),
        ledger.claims.contains_key(handle),
        ledger.claims[handle].claimed,
        ledger.deposit_rejection(sender_account, handle, amount, index, claim_place, payment_place)
            is None,
    ensures
        ledger.deposited(
            sender_account,
            handle,
            amount,
            index,
            now,
            claim_place,
            payment_place,
        ).claims[handle] == (PendingClaimView {
            social_handle: handle,
            amount,
            claimed: false,
            payment_count: 1,
            bump: bump_at(claim_place),
        }),
{
}

/// A payment that the total of an open cycle has no room for is turned down.
/// Where the payment lacks nothing else (the handle is short enough, the
/// payer holds the amount and the escrow balance has room for it), the reason
/// given is `InvalidAmount`.
pub proof fn law_total_never_wraps(
    ledger: LedgerView,
    sender_account: TokenAccount,
    handle: Seq<char>,
    amount: u64,
    index: u64,
    claim_place: Option<(Address, u8)>,
    payment_place: Option<(Address, u8)>,
)
    requires
        ledger.wf(),
        ledger.claim_of(handle).is_open(),
        ledger.claim_of(handle).amount + amount > u64::MAX,
    ensures
        ({
            let rejection = ledger.deposit_rejection(
                sender_account,
                handle,
                amount,
                index,
                claim_place,
                payment_place,
            );
            &&& rejection is Some
            &&& handle_fits(handle) && sender_account.amount >= amount && ledger.escrow_balance(
                sender_account.mint,
            ) + amount <= u64::MAX ==> rejection == Some(
                Failure::Program(ErrorCode::InvalidAmount),
            )
        }),
{
}

/// A claimer whose link record does not name the handle, or who has no link
/// record, is turned down as not linked, whatever waits for the handle.
pub proof fn law_claim_needs_link(
    ledger: LedgerView,
    claimer_account: TokenAccount,
    handle: Seq<char>,
)
    requires
        !ledger.link_of(claimer_account.owner).names(handle) || !ledger.links.contains_key(
            claimer_account.owner,
        ),
    ensures
        ledger.claim_rejection(claimer_account, handle) == Some(
            Failure::Program(ErrorCode::NotLinked),
        ),
{
}

/// A handle of more than thirty characters is never linked: the admin is told
/// that it is too long, and anyone else that only the admin may link.
pub proof fn law_long_handle_is_not_linked(
    ledger: LedgerView,
    signer: Address,
    handle: Seq<char>,
    place: Option<(Address, u8)>,
)
    requires
        handle.len() > 30,
    ensures
        !handle_fits(handle),
        ledger.link_rejection(signer, handle, place) == Some(
            Failure::Program(
                if signer == ledger.config.admin {
                    ErrorCode::HandleTooLong
                } else {
                    ErrorCode::Unauthorized
                },
            ),
        ),
{
    lemma_handle_bytes(handle);
}

/// A payment index serves a handle once: after a payment under it, every
/// other payment to the handle under the same index is turned down.
pub proof fn law_index_serves_once(
    ledger: LedgerView,
    first: TokenAccount,
    second: TokenAccount,
    handle: Seq<char>,
    a: u64,
    b: u64,
    index: u64,
    t: i64,
    claim_place: Option<(Address, u8)>,
    payment_place: Option<(Address, u8)>,
    next_claim_place: Option<(Address, u8)>,
    next_payment_place: Option<(Address, u8)>,
)
    requires
        ledger.wf(),
        ledger.deposit_rejection(first, handle, a, index, claim_place, payment_place) is None,
    ensures
        ledger.deposited(first, handle, a, index, t, claim_place, payment_place).deposit_rejection(
            second,
            handle,
            b,
            index,
            next_claim_place,
            next_payment_place,
        ) is Some,
{
}

/// While a cycle is open, the aggregate agrees with the payment records of
/// the cycle: every payment of the cycle has its record, the aggregate counts
/// each of them once, and its total is the sum of their amounts.
pub proof fn law_open_cycle_adds_up(ledger: LedgerView, handle: Seq<char>)
    requires
        ledger.wf(),
        ledger.claims.contains_key(handle),
        ledger.claims[handle].is_open(),
    ensures
        ledger.cycle_of(handle).no_duplicates(),
        forall|k: int|
            0 <= k < ledger.cycle_of(handle).len() ==> ledger.payments.contains_key(
                (handle, #[trigger] ledger.cycle_of(handle)[k]),
            ),
        ledger.claims[handle].payment_count == ledger.cycle_of(handle).len(),
        ledger.claims[handle].amount == paid_total(
            ledger.payments,
            handle,
            ledger.cycle_of(handle),
        ),
{
    assert(ledger.adds_up(handle));
}

/// A payment record, once written, stays as it was written: linking, paying,
/// claiming and taking back storage neither change nor drop it.
pub proof fn law_history_is_kept(
    ledger: LedgerView,
    paid_handle: Seq<char>,
    paid_index: u64,
    account: TokenAccount,
    user: Address,
    platform: Platform,
    handle: Seq<char>,
    amount: u64,
    index: u64,
    now: i64,
    place: Option<(Address, u8)>,
    claim_place: Option<(Address, u8)>,
    payment_place: Option<(Address, u8)>,
)
    requires
        ledger.wf(),
        ledger.payments.contains_key((paid_handle, paid_index)),
    ensures
        ({
            let key = (paid_handle, paid_index);
            let record = ledger.payments[key];
            let linked = ledger.linked(platform, user, handle, place);
            let deposited = ledger.deposited(
                account,
                handle,
                amount,
                index,
                now,
                claim_place,
                payment_place,
            );
            let claimed = ledger.claimed(account, handle);
            let reclaimed = ledger.reclaimed(handle);
            &&& linked.payments.contains_key(key) && linked.payments[key] == record
            &&& claimed.payments.contains_key(key) && claimed.payments[key] == record
            &&& reclaimed.payments.contains_key(key) && reclaimed.payments[key] == record
            &&& ledger.deposit_rejection(account, handle, amount, index, claim_place, payment_place)
                is None ==> deposited.payments.contains_key(key) && deposited.payments[key]
                == record
        }),
{
}

/// The authority record is written at setup and never again: whatever is
/// done to a ledger, the admin, the authority's address and the program stay.
pub proof fn law_authority_is_fixed(
    ledger: LedgerView,
    account: TokenAccount,
    user: Address,
    platform: Platform,
    handle: Seq<char>,
    amount: u64,
    index: u64,
    now: i64,
    place: Option<(Address, u8)>,
    claim_place: Option<(Address, u8)>,
    payment_place: Option<(Address, u8)>,
)
    ensures
        ({
            let linked = ledger.linked(platform, user, handle, place);
            let deposited = ledger.deposited(
                account,
                handle,
                amount,
                index,
                now,
                claim_place,
                payment_place,
            );
            let claimed = ledger.claimed(account, handle);
            let reclaimed = ledger.reclaimed(handle);
            &&& linked.config == ledger.config && linked.authority == ledger.authority
                && linked.program_id == ledger.program_id
            &&& deposited.config == ledger.config && deposited.authority == ledger.authority
                && deposited.program_id == ledger.program_id
            &&& claimed.config == ledger.config && claimed.authority == ledger.authority
                && claimed.program_id == ledger.program_id
            &&& reclaimed.config == ledger.config && reclaimed.authority == ledger.authority
                && reclaimed.program_id == ledger.program_id
        }),
{
}

/// Each operation keeps to the records it is about. A payment and a claim
/// leave the aggregate of every other handle as it was, and linking leaves
/// every aggregate; none of the three drops an aggregate, and taking back
/// storage drops that of its handle alone. Link records change by linking
/// only, and only that of the wallet that is linked.
pub proof fn law_other_records_are_left(
    ledger: LedgerView,
    other_handle: Seq<char>,
    other_user: Address,
    account: TokenAccount,
    user: Address,
    platform: Platform,
    handle: Seq<char>,
    amount: u64,
    index: u64,
    now: i64,
    place: Option<(Address, u8)>,
    claim_place: Option<(Address, u8)>,
    payment_place: Option<(Address, u8)>,
)
    requires
        ledger.wf(),
    ensures
        ({
            let linked = ledger.linked(platform, user, handle, place);
            let deposited = ledger.deposited(
                account,
                handle,
                amount,
                index,
                now,
                claim_place,
                payment_place,
            );
            let claimed = ledger.claimed(account, handle);
            let reclaimed = ledger.reclaimed(handle);
            &&& linked.claims == ledger.claims
            &&& other_handle != handle ==> {
                &&& deposited.claims.contains_key(other_handle) == ledger.claims.contains_key(
                    other_handle,
                )
                &&& claimed.claims.contains_key(other_handle) == ledger.claims.contains_key(
                    other_handle,
                )
                &&& reclaimed.claims.contains_key(other_handle) == ledger.claims.contains_key(
                    other_handle,
                )
                &&& deposited.claim_of(other_handle) == ledger.claim_of(other_handle)
                &&& claimed.claim_of(other_handle) == ledger.claim_of(other_handle)
                &&& reclaimed.claim_of(other_handle) == ledger.claim_of(other_handle)
            }
            &&& ledger.claims.contains_key(other_handle) ==> deposited.claims.contains_key(
                other_handle,
            ) && claimed.claims.contains_key(other_handle)
            &&& deposited.links == ledger.links
            &&& claimed.links == ledger.links
            &&& reclaimed.links == ledger.links
            &&& other_user != user ==> linked.links.contains_key(other_user)
                == ledger.links.contains_key(other_user) && linked.link_of(other_user)
                == ledger.link_of(other_user)
        }),
{
}

/// Linking, paying and taking back storage take nothing out of escrow.
pub proof fn law_escrow_is_kept(
    ledger: LedgerView,
    mint: Address,
    sender_account: TokenAccount,
    user: Address,
    platform: Platform,
    handle: Seq<char>,
    amount: u64,
    index: u64,
    now: i64,
    place: Option<(Address, u8)>,
    claim_place: Option<(Address, u8)>,
    payment_place: Option<(Address, u8)>,
)
    requires
        ledger.wf(),
    ensures
        ledger.linked(platform, user, handle, place).escrow_balance(mint) == ledger.escrow_balance(
            mint,
        ),
        ledger.reclaimed(handle).escrow_balance(mint) == ledger.escrow_balance(mint),
        ledger.deposit_rejection(
            sender_account,
            handle,
            amount,
            index,
            claim_place,
            payment_place,
        ) is None ==> ledger.deposited(
            sender_account,
            handle,
            amount,
            index,
            now,
            claim_place,
            payment_place,
        ).escrow_balance(mint) == ledger.escrow_balance(mint) + (if mint == sender_account.mint {
            amount
        } else {
            0
        }),
{
}

} // verus!
