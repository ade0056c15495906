//! Reading the balance of a held account.
//!
//! The held account belongs to the token collaborator and its data follows
//! that collaborator's fixed 165-byte layout.  The settle handler needs one
//! field of it: the balance, stored little endian at bytes 64..72.

use vstd::prelude::*;
use vstd::bytes::spec_u64_from_le_bytes;
use solana_program::program_pack::Pack;

verus! {

/// Whether four bytes are a valid optional-field tag of the token
/// collaborator's layout: all zero for an absent value, 1 then three zeros
/// for a present one.
pub open spec fn spec_coption_tag_ok(tag: Seq<u8>) -> bool {
    tag =~= seq![0u8, 0u8, 0u8, 0u8] || tag =~= seq![1u8, 0u8, 0u8, 0u8]
}

/// Whether a buffer is a token account record that the collaborator itself
/// would accept as holding an initialized account: exactly 165 bytes, the
/// three optional-field tags valid, and the state byte marking the account
/// initialized (1) or frozen (2), not uninitialized.
pub open spec fn spec_token_account_ok(s: Seq<u8>) -> bool {
    &&& s.len() == 165
    &&& spec_coption_tag_ok(s.subrange(72, 76))
    &&& (s[108] == 1 || s[108] == 2)
    &&& spec_coption_tag_ok(s.subrange(109, 113))
    &&& spec_coption_tag_ok(s.subrange(129, 133))
}

/// The balance a token account record holds, when it is well formed.
pub open spec fn spec_token_account_amount(s: Seq<u8>) -> Option<u64> {
    if spec_token_account_ok(s) {
        Some(spec_u64_from_le_bytes(s.subrange(64, 72)))
    } else {
        None
    }
}

/// Relies on spl_token::state::Account::unpack: it succeeds exactly on a
/// 165-byte buffer whose three optional-field tags are [0,0,0,0] or
/// [1,0,0,0], whose state byte at offset 108 is 1 or 2 (initialized or
/// frozen, not 0 = uninitialized), and the returned account's amount is
/// bytes 64..72 read little endian.
#[allow(deprecated)]
#[verifier::external_body]
pub(crate) fn unpack_token_account_amount(data: &[u8]) -> (r: Option<u64>)
    ensures
        r == spec_token_account_amount(data@),
{
    match spl_token::state::Account::unpack(data) {
        Ok(account) => Some(account.amount),
        Err(_) => None,
    }
}

} // verus!
