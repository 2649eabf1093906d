use vstd::prelude::*;

use anchor_lang::prelude::Pubkey;

use crate::error::SetupError;

verus! {

broadcast use vstd::array::group_array_axioms;

/// A 32-byte account address.
#[derive(Clone, Copy, Debug, Eq)]
pub struct Address {
    pub bytes: [u8; 32],
}

impl PartialEq for Address {
    fn eq(&self, o: &Address) -> (r: bool) {
        let mut i: usize = 0;
        while i < 32
            invariant
                i <= 32,
                forall|j: int| 0 <= j < i ==> self.bytes@[j] == o.bytes@[j],
            decreases 32 - i,
        {
            if self.bytes[i] != o.bytes[i] {
                return false;
            }
            i = i + 1;
        }
        assert(self.bytes@ =~= o.bytes@);
        true
    }
}

impl vstd::std_specs::cmp::PartialEqSpecImpl for Address {
    open spec fn obeys_eq_spec() -> bool {
        true
    }

    open spec fn eq_spec(&self, o: &Address) -> bool {
        self.bytes@ == o.bytes@
    }
}

/// An address together with the nonce that proves it was derived from its seeds.
#[derive(Clone, Copy, Debug)]
pub struct DerivedAddress {
    pub address: Address,
    pub nonce: u8,
}

/// The address a seed list yields under a program, or `None` when the hash
/// lands on the signing curve or the seeds are too many or too long.
pub uninterp spec fn program_address(seeds: Seq<Seq<u8>>, program: Seq<u8>) -> Option<Seq<u8>>;

/// The outcome of the nonce search for a seed list under a program.
pub uninterp spec fn canonical_program_address(seeds: Seq<Seq<u8>>, program: Seq<u8>) -> Option<(Seq<u8>, u8)>;

pub open spec fn seeds_view(seeds: Seq<Vec<u8>>) -> Seq<Seq<u8>> {
    seeds.map_values(|s: Vec<u8>| s@)
}

/// The namespace tag under which every registry address is derived.
pub open spec fn namespace_tag() -> Seq<u8> {
    seq![101u8, 120, 116, 114, 97, 45, 97, 99, 99, 111, 117, 110, 116, 45, 109, 101, 116, 97, 115]
}

/// The seeds of the registry of `token`, without its nonce.
pub open spec fn registry_seeds(token: Seq<u8>) -> Seq<Seq<u8>> {
    seq![namespace_tag(), token]
}

/// The seeds of the registry of `token` with its nonce, as signed with.
pub open spec fn registry_signer_seeds_spec(token: Seq<u8>, nonce: u8) -> Seq<Seq<u8>> {
    registry_seeds(token).push(seq![nonce])
}

/// The registry address of `token` under `validator` and its canonical nonce,
/// or `None` when the nonce search is exhausted.
pub open spec fn registry_address(token: Seq<u8>, validator: Seq<u8>) -> Option<(Seq<u8>, u8)> {
    canonical_program_address(registry_seeds(token), validator)
}

/// What a derivation returns, given the search outcome.
pub open spec fn derivation_matches(r: Result<DerivedAddress, SetupError>, outcome: Option<(Seq<u8>, u8)>) -> bool {
    match outcome {
        Some((a, n)) => r matches Ok(d) && d.address.bytes@ == a && d.nonce == n,
        None => r == Err::<DerivedAddress, SetupError>(SetupError::DerivationExhaustion),
    }
}

/// Relies on `Pubkey::create_program_address`: hashes the seeds and the program
/// id, and fails when the hash is a curve point or a seed limit is exceeded.
#[verifier::external_body]
fn create_program_address(seeds: &Vec<Vec<u8>>, program: &Address) -> (r: Option<Address>)
    ensures
        match r {
            Some(a) => program_address(seeds_view(seeds@), program.bytes@) == Some(a.bytes@),
            None => program_address(seeds_view(seeds@), program.bytes@).is_none(),
        },
{
    let refs: Vec<&[u8]> = seeds.iter().map(|s| s.as_slice()).collect();
    Pubkey::create_program_address(&refs, &Pubkey::new_from_array(program.bytes))
        .ok()
        .map(|k| Address { bytes: k.to_bytes() })
}

/// Relies on `Pubkey::try_find_program_address`: tries nonces from 255 down and
/// returns the first one for which `create_program_address` succeeds.
#[verifier::external_body]
fn try_find_program_address(seeds: &Vec<Vec<u8>>, program: &Address) -> (r: Option<(Address, u8)>)
    ensures
        match r {
            Some((a, n)) => canonical_program_address(seeds_view(seeds@), program.bytes@) == Some((a.bytes@, n)),
            None => canonical_program_address(seeds_view(seeds@), program.bytes@).is_none(),
        },
        r matches Some((a, n)) ==> program_address(seeds_view(seeds@).push(seq![n]), program.bytes@) == Some(a.bytes@),
        r matches Some((a, n)) ==> forall|k: u8| n < k ==> program_address(seeds_view(seeds@).push(seq![k]), program.bytes@).is_none(),
{
    let refs: Vec<&[u8]> = seeds.iter().map(|s| s.as_slice()).collect();
    Pubkey::try_find_program_address(&refs, &Pubkey::new_from_array(program.bytes))
        .map(|(k, n)| (Address { bytes: k.to_bytes() }, n))
}

/// The namespace tag as bytes.
pub fn namespace_tag_bytes() -> (r: Vec<u8>)
    ensures
        r@ == namespace_tag(),
{
    let r: Vec<u8> = vec![101u8, 120, 116, 114, 97, 45, 97, 99, 99, 111, 117, 110, 116, 45, 109, 101, 116, 97, 115];
    assert(r@ =~= namespace_tag());
    r
}

/// The seeds under which the registry of `token` is derived, without a nonce.
pub fn registry_seed_list(token: &Address) -> (r: Vec<Vec<u8>>)
    ensures
        seeds_view(r@) == registry_seeds(token.bytes@),
{
    let mut r: Vec<Vec<u8>> = Vec::new();
    r.push(namespace_tag_bytes());
    let t: Vec<u8> = vstd::slice::slice_to_vec(token.bytes.as_slice());
    r.push(t);
    assert(seeds_view(r@) =~= registry_seeds(token.bytes@));
    r
}

/// The seeds that sign for the registry of `token`, nonce included.
pub fn registry_signer_seeds(token: &Address, nonce: u8) -> (r: Vec<Vec<u8>>)
    ensures
        seeds_view(r@) == registry_signer_seeds_spec(token.bytes@, nonce),
{
    let mut r = registry_seed_list(token);
    let n: Vec<u8> = vec![nonce];
    assert(n@ =~= seq![nonce]);
    let ghost before = r@;
    r.push(n);
    assert(seeds_view(r@) =~= seeds_view(before).push(seq![nonce]));
    assert(seeds_view(r@) =~= registry_signer_seeds_spec(token.bytes@, nonce));
    r
}

/// Derives the registry address of `token` under `validator` and its canonical nonce.
pub fn derive_registry_address(token: &Address, validator: &Address) -> (r: Result<DerivedAddress, SetupError>)
    ensures
        derivation_matches(r, registry_address(token.bytes@, validator.bytes@)),
        r matches Ok(d) ==> program_address(registry_signer_seeds_spec(token.bytes@, d.nonce), validator.bytes@)
            == Some(d.address.bytes@),
{
    let seeds = registry_seed_list(token);
    match try_find_program_address(&seeds, validator) {
        Some((a, n)) => Ok(DerivedAddress { address: a, nonce: n }),
        None => Err(SetupError::DerivationExhaustion),
    }
}

/// Deriving the registry address of one token under one validator twice gives
/// the same address and the same nonce.
pub proof fn lemma_derivation_deterministic(
    token: Address,
    validator: Address,
    first: Result<DerivedAddress, SetupError>,
    second: Result<DerivedAddress, SetupError>,
)
    requires
        derivation_matches(first, registry_address(token.bytes@, validator.bytes@)),
        derivation_matches(second, registry_address(token.bytes@, validator.bytes@)),
    ensures
        first == second,
{
    if let Ok(d) = first {
        let e = second->Ok_0;
        assert(d.address.bytes =~= e.address.bytes);
    }
}

/// Checks that `seeds` reproduce `target` under `program`.
pub fn seeds_reproduce(seeds: &Vec<Vec<u8>>, program: &Address, target: &Address) -> (r: bool)
    ensures
        r == (program_address(seeds_view(seeds@), program.bytes@) == Some(target.bytes@)),
{
    match create_program_address(seeds, program) {
        Some(a) => a == *target,
        None => false,
    }
}

} // verus!
