//! The invariant checker: pure predicates over account metadata and record
//! contents.
//!
//! The processor calls these in a fixed order, so the first violated
//! invariant determines the reported error and failures are deterministic.

use vstd::prelude::*;
use crate::codec::Address;

verus! {

/// Whether two 32-byte account identities are the same.
pub fn address_eq(a: &Address, b: &Address) -> (r: bool)
    ensures
        r == (a@ == b@),
        r == (*a == *b),
{
    let mut i: usize = 0;
    while i < 32
        invariant
            i <= 32,
            forall|j: int| 0 <= j < i ==> a@[j] == b@[j],
        decreases 32 - i,
    {
        if a[i] != b[i] {
            return false;
        }
        i = i + 1;
    }
    proof {
        assert(a@ =~= b@);
        assert(*a =~= *b);
    }
    true
}

/// Whether an account is owned by the expected collaborator.
pub fn account_owned_by(account_owner: &Address, expected_owner: &Address) -> (r: bool)
    ensures
        r == (account_owner@ == expected_owner@),
{
    address_eq(account_owner, expected_owner)
}

/// Whether a balance covers the externally supplied minimum-balance
/// threshold for the account's size, i.e. whether the account is
/// rent-exempt.
pub fn is_rent_exempt(lamports: u64, minimum_balance: u64) -> (r: bool)
    ensures
        r == (lamports >= minimum_balance),
{
    lamports >= minimum_balance
}

/// Whether the balance actually held equals the amount the caller claims to
/// have observed.
pub fn amount_matches(held_amount: u64, observed_amount: u64) -> (r: bool)
    ensures
        r == (held_amount == observed_amount),
{
    held_amount == observed_amount
}

} // verus!
