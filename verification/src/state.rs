//! The persisted trade record and its fixed-layout codec.

use vstd::prelude::*;
use vstd::bytes::{lemma_auto_spec_u64_to_from_le_bytes, spec_u64_from_le_bytes, spec_u64_to_le_bytes, u64_from_le_bytes, u64_to_le_bytes};
use vstd::slice::slice_subrange;
use crate::codec::{byte_at, push_address, read_address, Address};

verus! {

/// The number of bytes of an encoded trade record: a one-byte flag, three
/// 32-byte addresses and an eight-byte little-endian amount.
pub const ESCROW_RECORD_LEN: usize = 105;

/// The persisted state of one escrow trade.
///
/// The record lives in an account owned by the escrow program.  It is
/// zero-filled until a trade is opened, written exactly once by the open
/// handler, read-only during settlement and destroyed when the trade settles.
#[derive(Clone, Copy, Debug, PartialEq, Eq)]
pub struct Escrow {
    /// False until a trade has been opened in this record.
    pub is_initialized: bool,
    /// The seller: receives the reclaimed rent when the trade settles.
    pub seller_pubkey: Address,
    /// The seller's receive account: paid the expected amount on settlement.
    pub seller_token_account_pubkey: Address,
    /// The held account: owned by the derived authority while the trade is
    /// open, holding the seller's deposited asset.
    pub temp_token_account_pubkey: Address,
    /// The quantity of the counter-asset the seller demands.
    pub amount: u64,
}

/// The canonical encoding of a trade record: flag byte, the three addresses
/// in declaration order, then the amount little endian.
pub open spec fn spec_escrow_bytes(e: Escrow) -> Seq<u8> {
    seq![if e.is_initialized { 1u8 } else { 0u8 }] + e.seller_pubkey@
        + e.seller_token_account_pubkey@ + e.temp_token_account_pubkey@ + spec_u64_to_le_bytes(
        e.amount,
    )
}

/// Whether a buffer is a well-formed trade record encoding: exactly the fixed
/// width, with a valid boolean byte.
pub open spec fn spec_escrow_decode_ok(s: Seq<u8>) -> bool {
    s.len() == ESCROW_RECORD_LEN && (s[0] == 0 || s[0] == 1)
}

impl Escrow {
    /// Whether this record holds an opened, not yet settled trade.
    pub fn is_initialized(&self) -> (r: bool)
        ensures
            r == self.is_initialized,
    {
        self.is_initialized
    }

    /// Serialize the record into its fixed 105-byte layout.
    pub fn encode(&self) -> (r: Vec<u8>)
        ensures
            r@ == spec_escrow_bytes(*self),
    {
        let mut out: Vec<u8> = Vec::new();
        out.push(if self.is_initialized {
            1u8
        } else {
            0u8
        });
        push_address(&mut out, &self.seller_pubkey);
        push_address(&mut out, &self.seller_token_account_pubkey);
        push_address(&mut out, &self.temp_token_account_pubkey);
        let mut amount_bytes = u64_to_le_bytes(self.amount);
        out.append(&mut amount_bytes);
        proof {
            assert(out@ =~= spec_escrow_bytes(*self));
        }
        out
    }

    /// Deserialize a record from a buffer.
    ///
    /// Decoding is strict: it succeeds exactly on a buffer of the fixed
    /// width whose flag byte is 0 or 1, and the returned record re-encodes
    /// byte for byte to the input.
    pub fn decode(data: &[u8]) -> (r: Option<Escrow>)
        ensures
            r is Some <==> spec_escrow_decode_ok(data@),
            r matches Some(e) ==> spec_escrow_bytes(e) == data@,
    {
        if data.len() != ESCROW_RECORD_LEN {
            return None;
        }
        let tag = byte_at(data, 0);
        if tag != 0 && tag != 1 {
            return None;
        }
        let seller_pubkey = read_address(data, 1);
        let seller_token_account_pubkey = read_address(data, 33);
        let temp_token_account_pubkey = read_address(data, 65);
        let amount = u64_from_le_bytes(slice_subrange(data, 97, 105));
        let e = Escrow {
            is_initialized: tag == 1,
            seller_pubkey,
            seller_token_account_pubkey,
            temp_token_account_pubkey,
            amount,
        };
        proof {
            lemma_auto_spec_u64_to_from_le_bytes();
            assert(spec_u64_to_le_bytes(e.amount) == data@.subrange(97, 105));
            assert(spec_escrow_bytes(e) =~= data@);
        }
        Some(e)
    }
}

/// The projections of an encoded record: each field of the record stands at
/// a fixed place of its encoding.
pub proof fn lemma_escrow_bytes_fields(e: Escrow)
    ensures
        spec_escrow_bytes(e).len() == ESCROW_RECORD_LEN,
        spec_escrow_bytes(e)[0] == if e.is_initialized { 1u8 } else { 0u8 },
        spec_escrow_bytes(e).subrange(1, 33) == e.seller_pubkey@,
        spec_escrow_bytes(e).subrange(33, 65) == e.seller_token_account_pubkey@,
        spec_escrow_bytes(e).subrange(65, 97) == e.temp_token_account_pubkey@,
        spec_escrow_bytes(e).subrange(97, 105) == spec_u64_to_le_bytes(e.amount),
{
    lemma_auto_spec_u64_to_from_le_bytes();
    assert(spec_escrow_bytes(e).subrange(1, 33) =~= e.seller_pubkey@);
    assert(spec_escrow_bytes(e).subrange(33, 65) =~= e.seller_token_account_pubkey@);
    assert(spec_escrow_bytes(e).subrange(65, 97) =~= e.temp_token_account_pubkey@);
    assert(spec_escrow_bytes(e).subrange(97, 105) =~= spec_u64_to_le_bytes(e.amount));
}

/// The record codec is injective: equal encodings come from equal records.
pub proof fn lemma_escrow_codec_injective(e1: Escrow, e2: Escrow)
    requires
        spec_escrow_bytes(e1) == spec_escrow_bytes(e2),
    ensures
        e1 == e2,
{
    lemma_escrow_bytes_fields(e1);
    lemma_escrow_bytes_fields(e2);
    lemma_auto_spec_u64_to_from_le_bytes();
    assert(e1.seller_pubkey@ == e2.seller_pubkey@);
    assert(e1.seller_pubkey =~= e2.seller_pubkey);
    assert(e1.seller_token_account_pubkey =~= e2.seller_token_account_pubkey);
    assert(e1.temp_token_account_pubkey =~= e2.temp_token_account_pubkey);
    assert(spec_u64_from_le_bytes(spec_u64_to_le_bytes(e1.amount)) == spec_u64_from_le_bytes(
        spec_u64_to_le_bytes(e2.amount),
    ));
}

/// Round trip: every record decodes from its own encoding, and from no other
/// record's.  Together with the decode contract, which returns only records
/// that re-encode byte for byte to the input, this pins the codec both ways.
pub proof fn lemma_escrow_decode_of_encode(e: Escrow)
    ensures
        spec_escrow_decode_ok(spec_escrow_bytes(e)),
        forall|e2: Escrow| spec_escrow_bytes(e2) == spec_escrow_bytes(e) ==> e2 == e,
{
    lemma_escrow_bytes_fields(e);
    assert forall|e2: Escrow| spec_escrow_bytes(e2) == spec_escrow_bytes(e) implies e2 == e by {
        lemma_escrow_codec_injective(e2, e);
    }
}

} // verus!
