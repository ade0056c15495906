//! The closed error taxonomy of the escrow core.

use vstd::prelude::*;

verus! {

/// Every way an invocation of the escrow state machine can fail.
///
/// All errors are terminal for the current invocation: nothing is retried and
/// the host discards any tentative state change.
#[derive(Clone, Copy, Debug, PartialEq, Eq)]
pub enum EscrowError {
    /// The instruction buffer, the trade record or the held account's data
    /// could not be decoded.
    MalformedInstruction,
    /// The account list handed in by the host is shorter than the handler
    /// requires.
    NotEnoughAccounts,
    /// An account is not owned by the expected collaborator.
    WrongOwner,
    /// The trade record account's balance does not cover the rent-exemption
    /// threshold for its size.
    NotRentExempt,
    /// The trade record already holds an initialized trade.
    AlreadyInitialized,
    /// The trade record holds no initialized trade.
    UninitializedTrade,
    /// The supplied amount differs from the held account's actual balance.
    AmountMismatch,
    /// An account identity supplied at settlement differs from the one
    /// recorded when the trade was opened.
    AccountMismatch,
    /// Rent bookkeeping during record destruction would overflow.
    ArithmeticOverflow,
    /// No disambiguation value yields a derived authority address for this
    /// program identity.
    AuthorityUnavailable,
}

} // verus!
