//! Core of a trustless two-party asset-swap (escrow) protocol.
//!
//! A seller deposits an asset into a holding account controlled by a
//! deterministically derived, keyless authority and records the terms of the
//! trade; any buyer who satisfies those terms completes the trade in a single
//! atomic step, after which the holding account and the trade record cease to
//! exist.
//!
//! The crate contains the escrow state machine: the instruction and record
//! codecs, the invariant checks, the two state-transition handlers (open a
//! trade, settle a trade) and the derived-authority computation.  The host
//! ledger runtime that stores accounts and executes the requested
//! sub-operations is an external collaborator and is not part of this crate.

pub mod authority;
pub mod checks;
pub mod codec;
pub mod config;
pub mod errors;
pub mod instruction;
pub mod processor;
pub mod state;
pub mod token;

pub use codec::Address;
pub use errors::EscrowError;
pub use state::Escrow;
