//! The derived authority: a deterministic, keyless capability address.
//!
//! The address is computed from a fixed textual seed and the program's own
//! identity, together with a disambiguation byte chosen so that the result
//! is not a valid signable address; no private key can exist for it.  Only
//! code executing as the escrow program can authorize operations in its
//! name, by presenting the disambiguation byte as proof.

use vstd::prelude::*;
use crate::codec::Address;

verus! {

/// The address and disambiguation byte that the ledger's deterministic
/// derivation yields for the given seed and program identity, or `None` in
/// the statistically improbable event that no disambiguation byte yields a
/// valid keyless address.
pub uninterp spec fn spec_program_address(seed: Seq<u8>, program_id: Address) -> Option<
    (Address, u8),
>;

/// The fixed textual seed of the escrow program's derived authority: the
/// bytes of "escrow".
pub open spec fn spec_authority_seed() -> Seq<u8> {
    seq![101u8, 115u8, 99u8, 114u8, 111u8, 119u8]
}

/// The derived authority of an escrow program instance.
pub open spec fn spec_derived_authority(program_id: Address) -> Option<(Address, u8)> {
    spec_program_address(spec_authority_seed(), program_id)
}

/// Relies on solana_program::pubkey::Pubkey::try_find_program_address: the
/// derivation is a pure function of the seed list and the owning identity
/// (repeated hashing with a descending disambiguation byte until the result
/// leaves the signable curve), and it returns None exactly when no
/// disambiguation byte works.
#[verifier::external_body]
fn try_derive_program_address(seed: &[u8], program_id: &Address) -> (r: Option<(Address, u8)>)
    ensures
        r == spec_program_address(seed@, *program_id),
{
    let owner = solana_program::pubkey::Pubkey::new_from_array(*program_id);
    solana_program::pubkey::Pubkey::try_find_program_address(&[seed], &owner).map(
        |found: (solana_program::pubkey::Pubkey, u8)| (found.0.to_bytes(), found.1),
    )
}

/// The seed of the derived authority, as bytes.
fn authority_seed() -> (r: Vec<u8>)
    ensures
        r@ == spec_authority_seed(),
{
    let mut r: Vec<u8> = Vec::new();
    r.push(101u8);
    r.push(115u8);
    r.push(99u8);
    r.push(114u8);
    r.push(111u8);
    r.push(119u8);
    proof {
        assert(r@ =~= spec_authority_seed());
    }
    r
}

/// Compute the derived authority of this program instance: the capability
/// address that owns every held account, and the disambiguation byte the
/// program presents when it authorizes an operation as that address.
pub fn derive_trade_authority(program_id: &Address) -> (r: Option<(Address, u8)>)
    ensures
        r == spec_derived_authority(*program_id),
{
    let seed = authority_seed();
    try_derive_program_address(seed.as_slice(), program_id)
}

} // verus!
