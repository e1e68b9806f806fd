//! Addresses, and the derivation of a program's addresses from seeds.

use vstd::prelude::*;

verus! {

/// The address of an account or of a program: thirty-two bytes.
#[derive(Clone, Copy, Debug)]
pub struct Pubkey(pub [u8; 32]);

impl View for Pubkey {
    type V = Seq<u8>;

    open spec fn view(&self) -> Seq<u8> {
        self.0@
    }
}

impl Pubkey {
    pub fn new_from_array(pubkey_array: [u8; 32]) -> (key: Pubkey)
        ensures
            key.0 == pubkey_array,
    {
        Pubkey(pubkey_array)
    }

    pub fn to_bytes(self) -> (bytes: [u8; 32])
        ensures
            bytes == self.0,
    {
        self.0
    }

    /// The address as a vector of its thirty-two bytes, as a seed holds it.
    pub fn to_vec(&self) -> (bytes: Vec<u8>)
        ensures
            bytes@ == self@,
    {
        let mut bytes: Vec<u8> = Vec::new();
        let mut i: usize = 0;
        while i < 32
            invariant
                i <= 32,
                bytes@ == self@.subrange(0, i as int),
            decreases 32 - i,
        {
            bytes.push(self.0[i]);
            i += 1;
        }
        bytes
    }
}

impl PartialEq for Pubkey {
    fn eq(&self, other: &Pubkey) -> (same: bool) {
        let mut i: usize = 0;
        while i < 32
            invariant
                i <= 32,
                forall|j: int| 0 <= j < i ==> self.0[j] == other.0[j],
            decreases 32 - i,
        {
            if self.0[i] != other.0[i] {
                return false;
            }
            i += 1;
        }
        assert(self.0 =~= other.0);
        true
    }
}

impl Eq for Pubkey {}

impl vstd::std_specs::cmp::PartialEqSpecImpl for Pubkey {
    open spec fn obeys_eq_spec() -> bool {
        true
    }

    open spec fn eq_spec(&self, other: &Pubkey) -> bool {
        *self == *other
    }
}

impl Default for Pubkey {
    fn default() -> (key: Pubkey)
        ensures
            key@ == Seq::new(32, |i: int| 0u8),
    {
        let key = Pubkey([0u8; 32]);
        assert(key@ =~= Seq::new(32, |i: int| 0u8));
        key
    }
}

/// Two addresses with the same bytes are the same address.
pub proof fn lemma_pubkey_ext(a: Pubkey, b: Pubkey)
    requires
        a@ == b@,
    ensures
        a == b,
{
    assert(a.0 =~= b.0);
}

/// The address that `Pubkey::try_find_program_address` of `solana_program`
/// derives for a program from a list of seeds, with the bump seed it settled
/// on, or `None` where it derives none. Seeds and program are given by their
/// bytes.
pub uninterp spec fn program_address(seeds: Seq<Seq<u8>>, program_id: Seq<u8>) -> Option<(Seq<u8>, u8)>;

/// A derived address and its bump seed by their plain values, as
/// `program_address` speaks of them.
pub open spec fn found_view(found: Option<(Pubkey, u8)>) -> Option<(Seq<u8>, u8)> {
    match found {
        Some((key, bump)) => Some((key@, bump)),
        None => None,
    }
}

/// Whether `derived` is an address and that address is `key`.
pub open spec fn address_matches(derived: Option<(Seq<u8>, u8)>, key: Pubkey) -> bool {
    derived matches Some((address, bump)) && address == key@
}

/// The bump seed that `derived` holds.
pub open spec fn bump_of(derived: Option<(Seq<u8>, u8)>) -> u8 {
    match derived {
        Some((address, bump)) => bump,
        None => 0,
    }
}

/// Calls `solana_program::pubkey::Pubkey::try_find_program_address`, which
/// hashes the seeds, a bump seed and the program's address, searching the bump
/// seeds from 255 downwards for an address off the curve. The call's result
/// depends on its arguments alone; the contract gives that result its name and
/// claims nothing else.
#[verifier::external_body]
fn solana_try_find_program_address(seeds: &Vec<Vec<u8>>, program_id: &Pubkey) -> (found: Option<
    (Pubkey, u8),
>)
    ensures
        found_view(found) == program_address(seeds.deep_view(), program_id@),
{
    let slices: Vec<&[u8]> = seeds.iter().map(|seed| seed.as_slice()).collect();
    let program = solana_program::pubkey::Pubkey::new_from_array(program_id.0);
    solana_program::pubkey::Pubkey::try_find_program_address(&slices, &program).map(
        |(key, bump)| (Pubkey(key.to_bytes()), bump),
    )
}

impl Pubkey {
    /// Derives the address that a program owns for a list of seeds, with the
    /// bump seed that completes the list. The result is a function of the
    /// seeds' bytes and the program's address, and of nothing else.
    pub fn try_find_program_address(seeds: &Vec<Vec<u8>>, program_id: &Pubkey) -> (found: Option<
        (Pubkey, u8),
    >)
        ensures
            found_view(found) == program_address(seeds.deep_view(), program_id@),
    {
        solana_try_find_program_address(seeds, program_id)
    }
}

/// Derivation is deterministic: lists of seeds with the same bytes, under
/// programs with the same address, derive the same address and bump seed.
pub proof fn lemma_derivation_deterministic(
    seeds_a: Vec<Vec<u8>>,
    program_a: Pubkey,
    seeds_b: Vec<Vec<u8>>,
    program_b: Pubkey,
)
    requires
        seeds_a.deep_view() == seeds_b.deep_view(),
        program_a@ == program_b@,
    ensures
        program_address(seeds_a.deep_view(), program_a@) == program_address(
            seeds_b.deep_view(),
            program_b@,
        ),
{
}

} // verus!
