//! Account addresses and the derivation of the counter's address.

use vstd::prelude::*;

verus! {

/// The address of an account or the identity of a program: 32 bytes.
#[derive(Clone, Copy, Debug, Eq, Hash)]
pub struct Address {
    pub bytes: [u8; 32],
}

impl View for Address {
    type V = Seq<u8>;

    open spec fn view(&self) -> Seq<u8> {
        self.bytes@
    }
}

impl PartialEq for Address {
    /// Two addresses are equal when they agree byte for byte.
    fn eq(&self, other: &Address) -> (r: bool) {
        let mut i: usize = 0;
        while i < 32
            invariant
                i <= 32,
                forall|j: int| 0 <= j < i ==> self.bytes@[j] == other.bytes@[j],
            decreases 32 - i,
        {
            if self.bytes[i] != other.bytes[i] {
                return false;
            }
            i += 1;
        }
        assert(self.bytes@ =~= other.bytes@);
        true
    }
}

impl vstd::std_specs::cmp::PartialEqSpecImpl for Address {
    open spec fn obeys_eq_spec() -> bool {
        true
    }

    open spec fn eq_spec(&self, other: &Address) -> bool {
        self@ == other@
    }
}

/// Addresses with the same bytes are the same address.
pub proof fn lemma_address_by_bytes(a: Address, b: Address)
    ensures
        (a == b) <==> (a@ == b@),
{
    if a@ == b@ {
        assert(a.bytes =~= b.bytes);
    }
}

impl Address {
    /// The bytes of the address, as a seed for a derivation.
    pub fn as_seed(&self) -> (bytes: Vec<u8>)
        ensures
            bytes@ == self@,
    {
        let mut bytes: Vec<u8> = Vec::new();
        let mut i: usize = 0;
        while i < 32
            invariant
                i <= 32,
                bytes@ == self@.take(i as int),
            decreases 32 - i,
        {
            bytes.push(self.bytes[i]);
            i += 1;
            assert(self@.take(i as int) =~= self@.take(i - 1).push(self@[i - 1]));
        }
        assert(self@.take(32) =~= self@);
        bytes
    }
}

/// The address and bump that `Pubkey::try_find_program_address` derives from
/// a list of seeds and a program identity, if it finds any.
pub uninterp spec fn derived_address(seeds: Seq<Seq<u8>>, program_id: Seq<u8>) -> Option<(Seq<u8>, u8)>;

/// Calls `Pubkey::try_find_program_address` of solana_program, which hashes
/// the seeds, a bump and the program identity, and tries the bumps from 255
/// down until the hash is a valid derived address. The result depends on the
/// seeds and the program identity alone.
#[verifier::external_body]
pub(crate) fn try_find_program_address(seeds: &Vec<Vec<u8>>, program_id: &Address) -> (r: Option<
    (Address, u8),
>)
    ensures
        match r {
            Some((address, bump)) => derived_address(seeds.deep_view(), program_id@) == Some(
                (address@, bump),
            ),
            None => derived_address(seeds.deep_view(), program_id@) is None,
        },
{
    let parts: Vec<&[u8]> = seeds.iter().map(|seed| seed.as_slice()).collect();
    let id = solana_program::pubkey::Pubkey::new_from_array(program_id.bytes);
    match solana_program::pubkey::Pubkey::try_find_program_address(&parts, &id) {
        Some((key, bump)) => Some((Address { bytes: key.to_bytes() }, bump)),
        None => None,
    }
}

/// The fixed seed that marks a counter account: the text `counter_acc`.
pub open spec fn seed_tag() -> Seq<u8> {
    seq![99u8, 111u8, 117u8, 110u8, 116u8, 101u8, 114u8, 95u8, 97u8, 99u8, 99u8]
}

/// The seeds from which the counter account of `owner` is derived.
pub open spec fn counter_seeds(owner: Seq<u8>) -> Seq<Seq<u8>> {
    seq![seed_tag(), owner]
}

/// The seeds with which the counter account of `owner` signs: its derivation
/// seeds and the bump that was found for them.
pub open spec fn counter_signer_seeds(owner: Seq<u8>, bump: u8) -> Seq<Seq<u8>> {
    seq![seed_tag(), owner, seq![bump]]
}

/// The canonical address of the counter account of `owner` under the program
/// `program_id`, with its bump.
pub open spec fn counter_address(program_id: Seq<u8>, owner: Seq<u8>) -> Option<(Seq<u8>, u8)> {
    derived_address(counter_seeds(owner), program_id)
}

/// The fixed seed, as bytes.
pub fn seed_tag_bytes() -> (tag: Vec<u8>)
    ensures
        tag@ == seed_tag(),
{
    let tag: Vec<u8> = vec![99u8, 111u8, 117u8, 110u8, 116u8, 101u8, 114u8, 95u8, 97u8, 99u8, 99u8];
    assert(tag@ =~= seed_tag());
    tag
}

/// Builds the derivation seeds of the counter account of `owner`.
pub fn counter_seed_list(owner: &Address) -> (seeds: Vec<Vec<u8>>)
    ensures
        seeds.deep_view() == counter_seeds(owner@),
{
    let mut seeds: Vec<Vec<u8>> = Vec::new();
    seeds.push(seed_tag_bytes());
    seeds.push(owner.as_seed());
    assert(seeds.deep_view() =~~= counter_seeds(owner@));
    seeds
}

/// Builds the seeds with which the counter account of `owner` signs.
pub fn counter_signer_seed_list(owner: &Address, bump: u8) -> (seeds: Vec<Vec<u8>>)
    ensures
        seeds.deep_view() == counter_signer_seeds(owner@, bump),
{
    let mut seeds: Vec<Vec<u8>> = Vec::new();
    seeds.push(seed_tag_bytes());
    seeds.push(owner.as_seed());
    seeds.push(vec![bump]);
    assert(seeds.deep_view() =~~= counter_signer_seeds(owner@, bump));
    seeds
}

/// `found` is what the derivation gives for the counter account of `owner`
/// under the program `program_id`.
pub open spec fn is_counter_derivation(
    program_id: Address,
    owner: Address,
    found: Option<(Address, u8)>,
) -> bool {
    match found {
        Some((address, bump)) => counter_address(program_id@, owner@) == Some((address@, bump)),
        None => counter_address(program_id@, owner@) is None,
    }
}

/// Derives the canonical address of the counter account of `owner`, with its
/// bump. The result is a function of the program identity and the owner.
pub fn find_counter_address(program_id: &Address, owner: &Address) -> (r: Option<(Address, u8)>)
    ensures
        is_counter_derivation(*program_id, *owner, r),
{
    let seeds = counter_seed_list(owner);
    try_find_program_address(&seeds, program_id)
}

/// The derivation is deterministic: whenever it runs for one program and
/// one owner, it gives the same address and the same bump.
pub proof fn lemma_counter_derivation_deterministic(
    program_id: Address,
    owner: Address,
    first: Option<(Address, u8)>,
    second: Option<(Address, u8)>,
)
    requires
        is_counter_derivation(program_id, owner, first),
        is_counter_derivation(program_id, owner, second),
    ensures
        first == second,
{
    if first is Some {
        lemma_address_by_bytes(first->Some_0.0, second->Some_0.0);
    }
}

/// Distinct owners have distinct derivation seeds.
pub proof fn lemma_counter_seeds_injective(a: Seq<u8>, b: Seq<u8>)
    ensures
        counter_seeds(a) == counter_seeds(b) <==> a == b,
{
    if counter_seeds(a) == counter_seeds(b) {
        assert(counter_seeds(a)[1] == a);
        assert(counter_seeds(b)[1] == b);
    }
}

} // verus!
