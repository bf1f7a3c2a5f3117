//! Account addresses and their derivation from a seed.

use crate::error::ApricotError;
use solana_program::pubkey::PubkeyError;
use vstd::prelude::*;
use vstd::string::*;

verus! {

/// Number of bytes in an address.
pub const PUBKEY_BYTES: usize = 32;

/// Longest seed, in bytes, from which an address can be derived.
pub const MAX_SEED_LEN: usize = 32;

/// The text `ProgramDerivedAddress`. An owner whose last bytes spell it is
/// refused by the derivation, because the result could be taken for an address
/// derived by a program.
pub const PDA_MARKER: [u8; 21] = [
    80, 114, 111, 103, 114, 97, 109, 68, 101, 114, 105, 118, 101, 100, 65, 100, 100, 114, 101, 115,
    115,
];

/// The address of an account or of a program: 32 opaque bytes.
#[derive(Clone, Copy, Debug, PartialEq, Eq)]
pub struct Pubkey {
    pub bytes: [u8; 32],
}

impl View for Pubkey {
    type V = Seq<u8>;

    open spec fn view(&self) -> Seq<u8> {
        self.bytes@
    }
}

/// Whether the last bytes of `owner` spell `PDA_MARKER`.
pub open spec fn has_pda_marker(owner: Seq<u8>) -> bool {
    owner.len() >= 21 && owner.subrange(owner.len() - 21, owner.len() as int) == PDA_MARKER@
}

/// The SHA-256 digest of `base`, `seed` and `owner` in this order, as
/// `Pubkey::create_with_seed` of `solana_program` computes it.
pub uninterp spec fn seed_hash(base: Seq<u8>, seed: Seq<u8>, owner: Seq<u8>) -> Seq<u8>;

/// The derived address depends on nothing but the base, the seed and the
/// owner: the same three give the same address.
pub proof fn lemma_derivation_is_deterministic(
    base: Seq<u8>,
    seed: Seq<u8>,
    owner: Seq<u8>,
    other_base: Seq<u8>,
    other_seed: Seq<u8>,
    other_owner: Seq<u8>,
)
    requires
        base == other_base,
        seed == other_seed,
        owner == other_owner,
    ensures
        seed_hash(base, seed, owner) == seed_hash(other_base, other_seed, other_owner),
{
}

impl Pubkey {
    /// The address made of the given bytes.
    pub fn new_from_array(bytes: [u8; 32]) -> (key: Pubkey)
        ensures
            key@ == bytes@,
            key.bytes == bytes,
    {
        Pubkey { bytes }
    }

    /// The bytes of the address.
    pub fn to_bytes(&self) -> (bytes: [u8; 32])
        ensures
            bytes@ == self@,
            bytes == self.bytes,
    {
        self.bytes
    }

    /// Whether the address ends in `PDA_MARKER`, so that nothing can be
    /// derived with it as the owner.
    pub fn has_pda_marker(&self) -> (marked: bool)
        ensures
            marked == has_pda_marker(self@),
    {
        let mut i: usize = 0;
        while i < 21
            invariant
                i <= 21,
                forall|j: int| 0 <= j < i ==> self.bytes@[11 + j] == PDA_MARKER@[j],
            decreases 21 - i,
        {
            if self.bytes[11 + i] != PDA_MARKER[i] {
                assert(self@.subrange(11, 32)[i as int] != PDA_MARKER@[i as int]);
                return false;
            }
            i = i + 1;
        }
        assert(self@.subrange(11, 32) =~= PDA_MARKER@);
        true
    }

    /// Derives an address from a base address, a seed and the program that
    /// will own the account.
    ///
    /// Fails with `MaxSeedLengthExceeded` for a seed of more than
    /// `MAX_SEED_LEN` bytes, and else with `IllegalOwner` for an owner that
    /// ends in `PDA_MARKER`.
    pub fn create_with_seed(base: &Pubkey, seed: &str, owner: &Pubkey) -> (derived: Result<
        Pubkey,
        ApricotError,
    >)
        ensures
            derived_bytes(derived) == derived_address(base@, seed.spec_bytes(), owner@),
    {
        hash_with_seed(base, seed, owner)
    }
}

/// What deriving an address from a base, the bytes of a seed and an owner
/// gives: no address from a seed of more than `MAX_SEED_LEN` bytes, none for an
/// owner that ends in `PDA_MARKER`, and else the digest of the three.
pub open spec fn derived_address(base: Seq<u8>, seed: Seq<u8>, owner: Seq<u8>) -> Result<
    Seq<u8>,
    ApricotError,
> {
    if seed.len() > MAX_SEED_LEN {
        Err(ApricotError::MaxSeedLengthExceeded)
    } else if has_pda_marker(owner) {
        Err(ApricotError::IllegalOwner)
    } else {
        Ok(seed_hash(base, seed, owner))
    }
}

/// The outcome of a derivation, with the address taken by its bytes.
pub open spec fn derived_bytes(derived: Result<Pubkey, ApricotError>) -> Result<
    Seq<u8>,
    ApricotError,
> {
    match derived {
        Ok(key) => Ok(key@),
        Err(e) => Err(e),
    }
}

/// The address off the curve that `Pubkey::try_find_program_address` of
/// `solana_program` finds for three addresses as the seeds and a deriving
/// program, if it finds one.
pub uninterp spec fn program_address(
    first: Seq<u8>,
    second: Seq<u8>,
    third: Seq<u8>,
    program: Seq<u8>,
) -> Option<Seq<u8>>;

/// An address that may be missing, taken by its bytes.
pub open spec fn address_bytes(address: Option<Pubkey>) -> Option<Seq<u8>> {
    match address {
        Some(key) => Some(key@),
        None => None,
    }
}

/// Searches the address that a program derives from three addresses as the
/// seeds, by `Pubkey::try_find_program_address` of `solana_program`.
///
/// Trusted: the search depends on its arguments alone, so that its outcome has
/// a name, `program_address`. Nothing is claimed of when it succeeds.
#[verifier::external_body]
pub(crate) fn find_program_address(
    first: &Pubkey,
    second: &Pubkey,
    third: &Pubkey,
    program: &Pubkey,
) -> (found: Option<Pubkey>)
    ensures
        address_bytes(found) == program_address(first@, second@, third@, program@),
{
    let program = solana_program::pubkey::Pubkey::new_from_array(program.bytes);
    let seeds: [&[u8]; 3] = [&first.bytes, &second.bytes, &third.bytes];
    match solana_program::pubkey::Pubkey::try_find_program_address(&seeds, &program) {
        Some((key, _)) => Some(Pubkey { bytes: key.to_bytes() }),
        None => None,
    }
}

/// Calls `Pubkey::create_with_seed` of `solana_program`.
///
/// Trusted, as the source of that function shows it: the derivation is refused
/// with `MaxSeedLengthExceeded` when the seed has more than `MAX_SEED_LEN`
/// bytes, else with `IllegalOwner` when the owner ends in `PDA_MARKER`;
/// otherwise it succeeds with the SHA-256 digest of the base's bytes, the
/// seed's bytes and the owner's bytes, which `seed_hash` names.
#[verifier::external_body]
fn hash_with_seed(base: &Pubkey, seed: &str, owner: &Pubkey) -> (derived: Result<
    Pubkey,
    ApricotError,
>)
    ensures
        derived_bytes(derived) == (if seed.spec_bytes().len() > MAX_SEED_LEN {
            Err(ApricotError::MaxSeedLengthExceeded)
        } else if has_pda_marker(owner@) {
            Err(ApricotError::IllegalOwner)
        } else {
            Ok(seed_hash(base@, seed.spec_bytes(), owner@))
        }),
{
    let base = solana_program::pubkey::Pubkey::new_from_array(base.bytes);
    let owner = solana_program::pubkey::Pubkey::new_from_array(owner.bytes);
    match solana_program::pubkey::Pubkey::create_with_seed(&base, seed, &owner) {
        Ok(key) => Ok(Pubkey { bytes: key.to_bytes() }),
        Err(PubkeyError::MaxSeedLengthExceeded) => Err(ApricotError::MaxSeedLengthExceeded),
        Err(PubkeyError::InvalidSeeds) => Err(ApricotError::InvalidSeeds),
        Err(PubkeyError::IllegalOwner) => Err(ApricotError::IllegalOwner),
    }
}

} // verus!
