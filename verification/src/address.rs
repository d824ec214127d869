//! Addresses, and where each kind of record lives.
//!
//! Every record of the escrow sits at an address that anyone can compute from
//! the program's own address, a tag for the kind of record, and the record's
//! key. No table of addresses is kept anywhere: a payer finds the aggregate of
//! a handle that has never been seen before in the same way as the claimer
//! will find it later.

use vstd::prelude::*;
use vstd::bytes::spec_u64_to_le_bytes;
use vstd::bytes::u64_to_le_bytes;
use vstd::std_specs::cmp::PartialEqSpecImpl;
use vstd::string::StringSliceAdditionalSpecFns;

verus! {

/// The address of an account: a wallet, the mint of an asset, or the place of
/// a record.
#[derive(Clone, Copy, Debug, Eq, Hash)]
pub struct Address {
    pub bytes: [u8; 32],
}

impl Address {
    /// The address of thirty-two zero bytes. A link record that nobody owns yet
    /// carries it as its owner.
    pub open spec fn zero() -> Address {
        Address { bytes: vstd::array::spec_array_fill_for_copy_type::<u8, 32>(0u8) }
    }

    /// Makes an address of its bytes.
    pub fn new(bytes: [u8; 32]) -> (a: Address)
        ensures
            a.bytes == bytes,
    {
        Address { bytes }
    }

    /// Tells whether this is the address of zero bytes.
    pub fn is_zero(&self) -> (r: bool)
        ensures
            r == (*self == Address::zero()),
    {
        let zero = Address { bytes: [0u8; 32] };
        *self == zero
    }
}

impl PartialEq for Address {
    fn eq(&self, other: &Self) -> (r: bool) {
        let mut i: usize = 0;
        while i < 32
            invariant
                i <= 32,
                forall|j: int| 0 <= j < i ==> self.bytes[j] == other.bytes[j],
            decreases 32 - i,
        {
            if self.bytes[i] != other.bytes[i] {
                return false;
            }
            i = i + 1;
        }
        assert(self.bytes =~= other.bytes);
        true
    }
}

impl PartialEqSpecImpl for Address {
    open spec fn obeys_eq_spec() -> bool {
        true
    }

    open spec fn eq_spec(&self, other: &Self) -> bool {
        *self == *other
    }
}

impl Default for Address {
    fn default() -> (a: Address)
        ensures
            a == Address::zero(),
    {
        Address { bytes: [0u8; 32] }
    }
}

/// The address and the bump that the chain derives for a list of seeds under
/// a program, or `None` where it derives none. The derivation hashes the
/// seeds, a bump byte and the program's address, and lowers the bump from 255
/// until the hash is no point of the signature curve; nothing else goes into
/// it.
pub uninterp spec fn program_address(seeds: Seq<Seq<u8>>, program_id: Seq<u8>) -> Option<
    (Seq<u8>, u8),
>;

/// The address that has the bytes `bytes`.
pub open spec fn address_of(bytes: Seq<u8>) -> Address {
    choose|address: Address| address.bytes@ == bytes
}

/// What the chain derives for `seeds` under `program_id`: the address of a
/// record and the bump of the address, or `None` where it derives none.
pub open spec fn derived(seeds: Seq<Seq<u8>>, program_id: Address) -> Option<(Address, u8)> {
    match program_address(seeds, program_id.bytes@) {
        Some((bytes, bump)) => Some((address_of(bytes), bump)),
        None => None,
    }
}

/// An address is told by its bytes.
pub proof fn lemma_address_of(address: Address)
    ensures
        address_of(address.bytes@) == address,
{
    let chosen = address_of(address.bytes@);
    assert(chosen.bytes@ == address.bytes@);
    assert(chosen.bytes =~= address.bytes);
}

/// The byte strings that a list of seeds holds.
pub open spec fn seed_bytes(seeds: Seq<&[u8]>) -> Seq<Seq<u8>> {
    Seq::new(seeds.len(), |i: int| seeds[i]@)
}

/// Calls `anchor_lang::prelude::Pubkey::try_find_program_address`, after
/// turning the program's address into a `Pubkey`, and turns the `Pubkey`
/// that comes back into an [`Address`]. The contract is not proved. It
/// claims that the call computes a function of the seeds and of the
/// program's address, which [`program_address`] names: the same bytes give
/// the same address and bump, or `None`, wherever the call is made. It claims
/// nothing of which address that is, nor of when there is one.
#[verifier::external_body]
fn find_program_address(seeds: &Vec<&[u8]>, program_id: &Address) -> (found: Option<
    (Address, u8),
>)
    ensures
        match found {
            Some((address, bump)) => program_address(seed_bytes(seeds@), program_id.bytes@)
                == Some((address.bytes@, bump)),
            None => program_address(seed_bytes(seeds@), program_id.bytes@) is None,
        },
{
    let id = anchor_lang::prelude::Pubkey::new_from_array(program_id.bytes);
    match anchor_lang::prelude::Pubkey::try_find_program_address(seeds.as_slice(), &id) {
        Some((key, bump)) => Some((Address { bytes: key.to_bytes() }, bump)),
        None => None,
    }
}

/// The seeds of the authority record, of which there is one.
pub open spec fn config_seeds() -> Seq<Seq<u8>> {
    seq!["config".spec_bytes()]
}

/// The seeds of the link record of `user`.
pub open spec fn social_link_seeds(user: Address) -> Seq<Seq<u8>> {
    seq!["social_link".spec_bytes(), user.bytes@]
}

/// The seeds of the aggregate of `handle`.
pub open spec fn pending_claim_seeds(handle: Seq<char>) -> Seq<Seq<u8>> {
    seq!["pending_claim".spec_bytes(), vstd::utf8::encode_utf8(handle)]
}

/// The seeds of the payment record that `handle` has under `index`.
pub open spec fn payment_record_seeds(handle: Seq<char>, index: u64) -> Seq<Seq<u8>> {
    seq![
        "payment_record".spec_bytes(),
        vstd::utf8::encode_utf8(handle),
        spec_u64_to_le_bytes(index),
    ]
}

/// Derives the address of the authority record, which also signs for the
/// escrow holding accounts.
pub fn config_address(program_id: &Address) -> (found: Option<(Address, u8)>)
    ensures
        found == derived(config_seeds(), *program_id),
{
    let mut seeds: Vec<&[u8]> = Vec::new();
    seeds.push("config".as_bytes());
    assert(seed_bytes(seeds@) =~= config_seeds());
    let found = find_program_address(&seeds, program_id);
    proof {
        if let Some((address, _)) = found {
            lemma_address_of(address);
        }
    }
    found
}

/// Derives the address of the link record of `user`.
pub fn social_link_address(program_id: &Address, user: &Address) -> (found: Option<
    (Address, u8),
>)
    ensures
        found == derived(social_link_seeds(*user), *program_id),
{
    let mut seeds: Vec<&[u8]> = Vec::new();
    seeds.push("social_link".as_bytes());
    seeds.push(user.bytes.as_slice());
    assert(seed_bytes(seeds@) =~= social_link_seeds(*user));
    let found = find_program_address(&seeds, program_id);
    proof {
        if let Some((address, _)) = found {
            lemma_address_of(address);
        }
    }
    found
}

/// Derives the address of the aggregate of `handle`.
pub fn pending_claim_address(program_id: &Address, handle: &str) -> (found: Option<
    (Address, u8),
>)
    ensures
        found == derived(pending_claim_seeds(handle@), *program_id),
{
    let mut seeds: Vec<&[u8]> = Vec::new();
    seeds.push("pending_claim".as_bytes());
    seeds.push(handle.as_bytes());
    assert(seed_bytes(seeds@) =~= pending_claim_seeds(handle@));
    let found = find_program_address(&seeds, program_id);
    proof {
        if let Some((address, _)) = found {
            lemma_address_of(address);
        }
    }
    found
}

/// Derives the address of the payment record that `handle` has under `index`.
pub fn payment_record_address(program_id: &Address, handle: &str, index: u64) -> (found: Option<
    (Address, u8),
>)
    ensures
        found == derived(payment_record_seeds(handle@, index), *program_id),
{
    let index_bytes = u64_to_le_bytes(index);
    let mut seeds: Vec<&[u8]> = Vec::new();
    seeds.push("payment_record".as_bytes());
    seeds.push(handle.as_bytes());
    seeds.push(index_bytes.as_slice());
    assert(seed_bytes(seeds@) =~= payment_record_seeds(handle@, index));
    let found = find_program_address(&seeds, program_id);
    proof {
        if let Some((address, _)) = found {
            lemma_address_of(address);
        }
    }
    found
}

} // verus!
