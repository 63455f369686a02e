//! Ledger addresses and the derivation of program addresses from seeds.

use anchor_lang::prelude::Pubkey;
use vstd::prelude::*;
use vstd::string::StringSliceAdditionalSpecFns;

verus! {

/// A 32-byte ledger address.
#[derive(Clone, Copy, Debug)]
pub struct Address {
    pub bytes: [u8; 32],
}

impl View for Address {
    type V = Seq<u8>;

    open spec fn view(&self) -> Seq<u8> {
        self.bytes@
    }
}

impl PartialEq for Address {
    fn eq(&self, other: &Address) -> (r: bool) {
        let mut i: usize = 0;
        while i < 32
            invariant
                i <= 32,
                forall|k: int| 0 <= k < i ==> self.bytes[k] == other.bytes[k],
            decreases 32 - i,
        {
            if self.bytes[i] != other.bytes[i] {
                return false;
            }
            i = i + 1;
        }
        assert(self.bytes =~= other.bytes);
        true
    }
}

impl Eq for Address {

}

impl vstd::std_specs::cmp::PartialEqSpecImpl for Address {
    open spec fn obeys_eq_spec() -> bool {
        true
    }

    open spec fn eq_spec(&self, other: &Address) -> bool {
        *self == *other
    }
}

impl Address {
    /// The address made of the given bytes.
    pub fn new(bytes: [u8; 32]) -> (a: Address)
        ensures
            a.bytes == bytes,
    {
        Address { bytes }
    }

    /// The bytes of the address, in order.
    pub fn to_vec(&self) -> (v: Vec<u8>)
        ensures
            v@ == self@,
    {
        let mut v: Vec<u8> = Vec::new();
        let mut i: usize = 0;
        while i < 32
            invariant
                i <= 32,
                v@ == self@.subrange(0, i as int),
            decreases 32 - i,
        {
            v.push(self.bytes[i]);
            i = i + 1;
        }
        v
    }
}

/// The address that `Pubkey::try_find_program_address` derives for a list of
/// seeds under a program, with the bump seed that it settled on; `None` where
/// it derives none.
pub uninterp spec fn program_address_found(seeds: Seq<Seq<u8>>, program_id: Seq<u8>) -> Option<
    (Seq<u8>, u8),
>;

/// The address that `Pubkey::create_program_address` computes for a list of
/// seeds under a program; `None` where it reports an error.
pub uninterp spec fn program_address_created(seeds: Seq<Seq<u8>>, program_id: Seq<u8>) -> Option<
    Seq<u8>,
>;

/// The seeds as sequences of bytes.
pub open spec fn seeds_view(seeds: Seq<Vec<u8>>) -> Seq<Seq<u8>> {
    Seq::new(seeds.len(), |i: int| seeds[i]@)
}

/// An optional address and bump seed, the address by its bytes.
pub open spec fn found_view(found: Option<(Address, u8)>) -> Option<(Seq<u8>, u8)> {
    match found {
        Some((address, bump)) => Some((address@, bump)),
        None => None,
    }
}

/// An optional address by its bytes.
pub open spec fn created_view(created: Option<Address>) -> Option<Seq<u8>> {
    match created {
        Some(address) => Some(address@),
        None => None,
    }
}

/// Calls `Pubkey::try_find_program_address`. The result is a function of the
/// seeds and the program alone. Where an address is found, it is the one
/// that `Pubkey::create_program_address` computes for the same seeds followed
/// by the one-byte seed that holds the bump: the search returns the first
/// address that this computation yields.
#[verifier::external_body]
fn try_find_program_address(seeds: &Vec<Vec<u8>>, program_id: &Address) -> (found: Option<
    (Address, u8),
>)
    ensures
        found_view(found) == program_address_found(seeds_view(seeds@), program_id@),
        found matches Some((address, bump)) ==> program_address_created(
            seeds_view(seeds@).push(seq![bump]),
            program_id@,
        ) == Some(address@),
{
    let slices: Vec<&[u8]> = seeds.iter().map(|seed| seed.as_slice()).collect();
    match Pubkey::try_find_program_address(&slices, &Pubkey::new_from_array(program_id.bytes)) {
        Some((key, bump)) => Some((Address { bytes: key.to_bytes() }, bump)),
        None => None,
    }
}

/// Calls `Pubkey::create_program_address`. The result is a function of the
/// seeds and the program alone; an error of the outside function is `None`.
#[verifier::external_body]
fn create_program_address(seeds: &Vec<Vec<u8>>, program_id: &Address) -> (created: Option<Address>)
    ensures
        created_view(created) == program_address_created(seeds_view(seeds@), program_id@),
{
    let slices: Vec<&[u8]> = seeds.iter().map(|seed| seed.as_slice()).collect();
    match Pubkey::create_program_address(&slices, &Pubkey::new_from_array(program_id.bytes)) {
        Ok(key) => Some(Address { bytes: key.to_bytes() }),
        Err(_) => None,
    }
}

/// The domain tag that opens every list of campaign seeds: the ASCII bytes of
/// the word "campaign".
pub open spec fn campaign_tag() -> Seq<u8> {
    seq![99u8, 97u8, 109u8, 112u8, 97u8, 105u8, 103u8, 110u8]
}

/// The seeds of a campaign: the tag, the owner's address, the campaign's label.
pub open spec fn campaign_seeds(authority: Seq<u8>, label: Seq<u8>) -> Seq<Seq<u8>> {
    seq![campaign_tag(), authority, label]
}

/// The escrow identity of a campaign and the bump seed that proves it.
pub open spec fn escrow_identity(program_id: Seq<u8>, authority: Seq<u8>, label: Seq<u8>) -> Option<
    (Seq<u8>, u8),
> {
    program_address_found(campaign_seeds(authority, label), program_id)
}

/// The identity that a campaign's seeds and a stored bump seed reproduce.
pub open spec fn escrow_credential(
    program_id: Seq<u8>,
    authority: Seq<u8>,
    label: Seq<u8>,
    bump: u8,
) -> Option<Seq<u8>> {
    program_address_created(campaign_seeds(authority, label).push(seq![bump]), program_id)
}

fn seeds_of(authority: &Address, label: &str) -> (seeds: Vec<Vec<u8>>)
    ensures
        seeds_view(seeds@) == campaign_seeds(authority@, label.spec_bytes()),
{
    let mut tag: Vec<u8> = Vec::new();
    tag.push(99u8);
    tag.push(97u8);
    tag.push(109u8);
    tag.push(112u8);
    tag.push(97u8);
    tag.push(105u8);
    tag.push(103u8);
    tag.push(110u8);
    assert(tag@ =~= campaign_tag());
    let mut seeds: Vec<Vec<u8>> = Vec::new();
    seeds.push(tag);
    seeds.push(authority.to_vec());
    seeds.push(vstd::slice::slice_to_vec(label.as_bytes()));
    assert(seeds_view(seeds@) =~= campaign_seeds(authority@, label.spec_bytes()));
    seeds
}

/// Derives the escrow identity of the campaign that `authority` owns under
/// `label`, with its bump seed.
pub fn find_escrow(program_id: &Address, authority: &Address, label: &str) -> (found: Option<
    (Address, u8),
>)
    ensures
        found_view(found) == escrow_identity(program_id@, authority@, label.spec_bytes()),
        found matches Some((address, bump)) ==> escrow_credential(
            program_id@,
            authority@,
            label.spec_bytes(),
            bump,
        ) == Some(address@),
{
    let seeds = seeds_of(authority, label);
    try_find_program_address(&seeds, program_id)
}

/// Reproduces a campaign's escrow identity from its seeds and a stored bump
/// seed, without searching.
pub fn reproduce_escrow(program_id: &Address, authority: &Address, label: &str, bump: u8) -> (created:
    Option<Address>)
    ensures
        created_view(created) == escrow_credential(
            program_id@,
            authority@,
            label.spec_bytes(),
            bump,
        ),
{
    let mut seeds = seeds_of(authority, label);
    let mut last: Vec<u8> = Vec::new();
    last.push(bump);
    seeds.push(last);
    assert(seeds_view(seeds@) =~= campaign_seeds(authority@, label.spec_bytes()).push(seq![bump]));
    create_program_address(&seeds, program_id)
}

/// Two addresses with the same bytes are the same address.
pub proof fn lemma_address_by_view(a: Address, b: Address)
    requires
        a@ == b@,
    ensures
        a == b,
{
    assert forall|i: int| 0 <= i < 32 implies a.bytes[i] == b.bytes[i] by {
        assert(a@[i] == b@[i]);
    }
    assert(a.bytes =~= b.bytes);
}

} // verus!
