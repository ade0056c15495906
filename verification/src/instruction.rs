//! The two escrow instructions and their wire format.

use vstd::prelude::*;
use vstd::bytes::{lemma_auto_spec_u64_to_from_le_bytes, spec_u64_from_le_bytes, spec_u64_to_le_bytes, u64_from_le_bytes, u64_to_le_bytes};
use vstd::slice::slice_subrange;
use crate::codec::byte_at;

verus! {

/// The number of bytes of an encoded instruction: a discriminant byte and an
/// eight-byte little-endian amount.
pub const INSTRUCTION_LEN: usize = 9;

/// An instruction of the escrow program.
#[derive(Clone, Copy, Debug, PartialEq, Eq)]
pub enum Instruction {
    /// Open a trade: record its terms and hand the held account to the
    /// derived authority.  The payload is the quantity of the counter-asset
    /// the seller expects in return.
    ///
    /// Accounts expected, in order:
    ///
    ///   0. `[signer]` the seller opening the trade
    ///   1. `[]` the seller's receive account for the counter-asset
    ///   2. `[writable]` the held account, pre-created and pre-funded by the
    ///      seller, currently owned by the token collaborator
    ///   3. `[writable]` the trade record account, pre-created and owned by
    ///      this program
    ///   4. `[]` the rent oracle
    ///   5. `[]` the token collaborator identity
    Initialize(u64),
    /// Settle a trade: pay the seller, release the held asset to the buyer
    /// and destroy the record.  The payload is the held balance as the buyer
    /// observed it.
    ///
    /// Accounts expected, in order:
    ///
    ///   0. `[signer]` the buyer settling the trade
    ///   1. `[writable]` the buyer's pay-out account for the counter-asset
    ///   2. `[writable]` the buyer's receive account for the held asset
    ///   3. `[writable]` the held account
    ///   4. `[writable]` the seller's main account, paid the reclaimed rent
    ///   5. `[writable]` the seller's receive account
    ///   6. `[writable]` the trade record account
    ///   7. `[]` the token collaborator identity
    ///   8. `[]` the derived authority account
    Exchange(u64),
}

/// The canonical encoding of an instruction: discriminant byte 0 for
/// `Initialize` and 1 for `Exchange`, then the amount little endian.
pub open spec fn spec_instruction_bytes(ix: Instruction) -> Seq<u8> {
    match ix {
        Instruction::Initialize(amount) => seq![0u8] + spec_u64_to_le_bytes(amount),
        Instruction::Exchange(amount) => seq![1u8] + spec_u64_to_le_bytes(amount),
    }
}

/// What an instruction buffer decodes to.
///
/// Decoding reads a discriminant byte and an amount and ignores anything
/// after them, so a buffer shorter than the fixed width or with an
/// unrecognized discriminant decodes to nothing.
pub open spec fn spec_decode_instruction(s: Seq<u8>) -> Option<Instruction> {
    if s.len() >= INSTRUCTION_LEN && s[0] == 0 {
        Some(Instruction::Initialize(spec_u64_from_le_bytes(s.subrange(1, 9))))
    } else if s.len() >= INSTRUCTION_LEN && s[0] == 1 {
        Some(Instruction::Exchange(spec_u64_from_le_bytes(s.subrange(1, 9))))
    } else {
        None
    }
}

impl Instruction {
    /// Serialize the instruction into its fixed nine-byte layout.
    pub fn encode(&self) -> (r: Vec<u8>)
        ensures
            r@ == spec_instruction_bytes(*self),
    {
        let mut out: Vec<u8> = Vec::new();
        let amount: u64 = match self {
            Instruction::Initialize(amount) => {
                out.push(0u8);
                *amount
            },
            Instruction::Exchange(amount) => {
                out.push(1u8);
                *amount
            },
        };
        let mut amount_bytes = u64_to_le_bytes(amount);
        out.append(&mut amount_bytes);
        proof {
            assert(out@ =~= spec_instruction_bytes(*self));
        }
        out
    }

    /// Deserialize an instruction from the front of a buffer, ignoring any
    /// trailing bytes.
    pub fn decode(input: &[u8]) -> (r: Option<Instruction>)
        ensures
            r == spec_decode_instruction(input@),
    {
        if input.len() < INSTRUCTION_LEN {
            return None;
        }
        let tag = byte_at(input, 0);
        if tag != 0 && tag != 1 {
            return None;
        }
        let amount = u64_from_le_bytes(slice_subrange(input, 1, 9));
        if tag == 0 {
            Some(Instruction::Initialize(amount))
        } else {
            Some(Instruction::Exchange(amount))
        }
    }
}

/// Round trip, one way: an instruction decodes from its own encoding.
pub proof fn lemma_instruction_decode_of_encode(ix: Instruction)
    ensures
        spec_decode_instruction(spec_instruction_bytes(ix)) == Some(ix),
{
    lemma_auto_spec_u64_to_from_le_bytes();
    let s = spec_instruction_bytes(ix);
    match ix {
        Instruction::Initialize(amount) => {
            assert(s.subrange(1, 9) =~= spec_u64_to_le_bytes(amount));
        },
        Instruction::Exchange(amount) => {
            assert(s.subrange(1, 9) =~= spec_u64_to_le_bytes(amount));
        },
    }
}

/// Round trip, other way: re-encoding what a buffer of exactly the fixed
/// width decodes to reproduces the buffer byte for byte.
pub proof fn lemma_instruction_encode_of_decode(s: Seq<u8>)
    requires
        s.len() == INSTRUCTION_LEN,
        spec_decode_instruction(s) is Some,
    ensures
        spec_instruction_bytes(spec_decode_instruction(s)->Some_0) == s,
{
    lemma_auto_spec_u64_to_from_le_bytes();
    let ix = spec_decode_instruction(s)->Some_0;
    assert(spec_instruction_bytes(ix) =~= s);
}

} // verus!
