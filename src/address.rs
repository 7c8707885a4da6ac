use std::str::FromStr;
use solana_program::pubkey::Pubkey;
use vstd::prelude::*;

verus! {

/// Largest number of seeds a caller may pass; the search appends one bump seed.
pub const MAX_SEEDS: usize = 15;

/// Largest length of one seed, in bytes.
pub const MAX_SEED_LEN: usize = 32;

/// A 32-byte account address.
#[derive(Clone, Copy, Debug)]
pub struct Address {
    pub bytes: [u8; 32],
}

/// Why an address could not be derived.
#[derive(Clone, Copy, Debug, PartialEq, Eq, Structural)]
pub enum DeriveError {
    /// Too many seeds, or one seed longer than the namespace admits.
    SeedLimitExceeded,
    /// No bump seed gave an address off the curve.
    DerivationExhausted,
}

/// Why a textual address was rejected.
#[derive(Clone, Copy, Debug, PartialEq, Eq, Structural)]
pub enum AddressError {
    Invalid,
}

/// The base58 text of an address.
pub uninterp spec fn base58_text(bytes: Seq<u8>) -> Seq<char>;

/// The bytes that a base58 text decodes to, if it names an address.
pub uninterp spec fn base58_address(text: Seq<char>) -> Option<Seq<u8>>;

/// The program-derived address and bump seed for a seed list under an owner.
pub uninterp spec fn program_address(seeds: Seq<Seq<u8>>, owner: Seq<u8>) -> Option<(Seq<u8>, u8)>;

/// The seeds as byte sequences.
pub open spec fn seeds_view(seeds: Seq<Vec<u8>>) -> Seq<Seq<u8>> {
    seeds.map_values(|s: Vec<u8>| s@)
}

/// Whether a seed list stays within the owner namespace's limits.
pub open spec fn seeds_within_limits(seeds: Seq<Seq<u8>>) -> bool {
    seeds.len() <= MAX_SEEDS && forall|i: int| 0 <= i < seeds.len() ==> #[trigger] seeds[i].len() <= MAX_SEED_LEN
}

/// The outcome of deriving an address from `seeds` under `owner`.
pub open spec fn derivation(seeds: Seq<Seq<u8>>, owner: Seq<u8>) -> Result<Seq<u8>, DeriveError> {
    if !seeds_within_limits(seeds) {
        Err(DeriveError::SeedLimitExceeded)
    } else {
        match program_address(seeds, owner) {
            Some(found) => Ok(found.0),
            None => Err(DeriveError::DerivationExhausted),
        }
    }
}

/// Relies on `Pubkey`'s `Display` impl: the base58 text of the 32 bytes, from
/// the bytes alone.
#[verifier::external_body]
fn pubkey_text(bytes: &[u8; 32]) -> (r: String)
    ensures
        r@ == base58_text(bytes@),
{
    Pubkey::new_from_array(*bytes).to_string()
}

/// Relies on `Pubkey::from_str`: decodes base58 text of a 32-byte address.
#[verifier::external_body]
fn parse_pubkey(text: &str) -> (r: Option<[u8; 32]>)
    ensures
        r matches Some(b) ==> base58_address(text@) == Some(b@),
        r is None ==> base58_address(text@) is None,
{
    match Pubkey::from_str(text) {
        Ok(p) => Some(p.to_bytes()),
        Err(_) => None,
    }
}

/// Relies on `Pubkey::try_find_program_address`: the search over bump seeds
/// 255 down to 0, a function of the seeds and the owner alone.
#[verifier::external_body]
fn try_find_program_address(seeds: &Vec<Vec<u8>>, owner: &[u8; 32]) -> (r: Option<([u8; 32], u8)>)
    requires
        seeds_within_limits(seeds_view(seeds@)),
    ensures
        r matches Some(found) ==> program_address(seeds_view(seeds@), owner@) == Some((found.0@, found.1)),
        r is None ==> program_address(seeds_view(seeds@), owner@) is None,
{
    let slices: Vec<&[u8]> = seeds.iter().map(|s| s.as_slice()).collect();
    match Pubkey::try_find_program_address(&slices, &Pubkey::new_from_array(*owner)) {
        Some((p, bump)) => Some((p.to_bytes(), bump)),
        None => None,
    }
}

impl Address {
    /// The address with the given bytes.
    pub fn new(bytes: [u8; 32]) -> (r: Address)
        ensures
            r.bytes@ == bytes@,
    {
        Address { bytes }
    }

    /// Parses the base58 text of an address.
    pub fn parse(text: &str) -> (r: Result<Address, AddressError>)
        ensures
            r matches Ok(a) ==> base58_address(text@) == Some(a.bytes@),
            r is Err <==> base58_address(text@) is None,
    {
        match parse_pubkey(text) {
            Some(bytes) => Ok(Address { bytes }),
            None => Err(AddressError::Invalid),
        }
    }

    /// The base58 text of the address.
    pub fn to_text(&self) -> (r: String)
        ensures
            r@ == base58_text(self.bytes@),
    {
        pubkey_text(&self.bytes)
    }

    /// Derives the program address for `seeds` under the owner program `owner`.
    pub fn derive(seeds: &Vec<Vec<u8>>, owner: &Address) -> (r: Result<Address, DeriveError>)
        ensures
            match (r, derivation(seeds_view(seeds@), owner.bytes@)) {
                (Ok(a), Ok(b)) => a.bytes@ == b,
                (Err(e), Err(f)) => e == f,
                _ => false,
            },
    {
        if seeds.len() > MAX_SEEDS {
            return Err(DeriveError::SeedLimitExceeded);
        }
        let mut i: usize = 0;
        while i < seeds.len()
            invariant
                0 <= i <= seeds.len(),
                forall|j: int| 0 <= j < i ==> #[trigger] seeds@[j]@.len() <= MAX_SEED_LEN,
            decreases seeds.len() - i,
        {
            if seeds[i].len() > MAX_SEED_LEN {
                assert(seeds_view(seeds@)[i as int] == seeds@[i as int]@);
                return Err(DeriveError::SeedLimitExceeded);
            }
            i = i + 1;
        }
        assert(seeds_within_limits(seeds_view(seeds@))) by {
            assert forall|j: int| 0 <= j < seeds_view(seeds@).len() implies #[trigger] seeds_view(seeds@)[j].len() <= MAX_SEED_LEN by {
                assert(seeds_view(seeds@)[j] == seeds@[j]@);
            }
        }
        match try_find_program_address(seeds, &owner.bytes) {
            Some(found) => Ok(Address { bytes: found.0 }),
            None => Err(DeriveError::DerivationExhausted),
        }
    }
}

} // verus!
