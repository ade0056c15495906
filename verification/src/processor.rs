//! The escrow state machine.
//!
//! A trade lives in exactly one of two logical states: absent (never created
//! or already settled) or open.  The open handler moves a record from absent
//! to open; the settle handler moves it back to absent, terminally.  Both
//! handlers are pure: they read plain account values handed in by the host,
//! and return either an error or the effects the host must apply — the new
//! record bytes, the balance moves of the program's own accounts, and the
//! sub-operations to request of the token collaborator.

use vstd::prelude::*;
use vstd::bytes::{lemma_auto_spec_u64_to_from_le_bytes, spec_u64_from_le_bytes};
use crate::authority::{derive_trade_authority, spec_derived_authority};
use crate::checks::{account_owned_by, address_eq, amount_matches, is_rent_exempt};
use crate::codec::Address;
use crate::errors::EscrowError;
use crate::instruction::{spec_decode_instruction, Instruction};
use crate::state::{lemma_escrow_bytes_fields, spec_escrow_bytes, spec_escrow_decode_ok, Escrow};
use crate::token::{spec_token_account_amount, unpack_token_account_amount};

verus! {

/// How many accounts the open handler expects.
pub const OPEN_ACCOUNT_COUNT: usize = 6;

/// How many accounts the settle handler expects.
pub const EXCHANGE_ACCOUNT_COUNT: usize = 9;

/// One account record as the host hands it to the entry point: its identity,
/// its owner, its balance, its raw data and its capability flags.
#[derive(Clone, Debug)]
pub struct AccountRecord {
    /// The account's identity.
    pub key: Address,
    /// The program that owns the account.
    pub owner: Address,
    /// The account's balance.
    pub lamports: u64,
    /// The account's raw data.
    pub data: Vec<u8>,
    /// Whether the host authenticated this account as a transaction signer.
    pub is_signer: bool,
    /// Whether the host lets this invocation write the account.
    pub is_writable: bool,
}

/// The proof of authorization presented to the token collaborator with each
/// requested sub-operation.
#[derive(Clone, Copy, Debug, PartialEq, Eq)]
pub enum AuthorizationProof {
    /// The operation is authorized by the transaction's authenticated
    /// signer.
    Signer {
        /// The signer's identity.
        key: Address,
    },
    /// The operation is authorized by the program acting as its derived
    /// authority; the disambiguation byte re-derives the address and is the
    /// proof, since no private key exists for it.
    Derived {
        /// The derived authority's address.
        address: Address,
        /// The disambiguation byte of the derivation.
        disambiguation: u8,
    },
}

/// A sub-operation the processor asks the token collaborator to execute as
/// part of the same atomic invocation.
#[derive(Clone, Copy, Debug, PartialEq, Eq)]
pub enum TokenOp {
    /// Hand ownership of a token account to a new authority.
    SetAuthority {
        /// The token collaborator's identity.
        token_program: Address,
        /// The account whose authority changes.
        account: Address,
        /// The authority it changes to.
        new_authority: Address,
        /// Who authorizes the change: the current authority.
        authorization: AuthorizationProof,
    },
    /// Move a quantity of an asset between two token accounts.
    Transfer {
        /// The token collaborator's identity.
        token_program: Address,
        /// The account debited.
        source: Address,
        /// The account credited.
        destination: Address,
        /// The quantity moved.
        amount: u64,
        /// Who authorizes the move: the source account's authority.
        authorization: AuthorizationProof,
    },
    /// Close a token account, crediting its remaining balance to a
    /// destination.
    CloseAccount {
        /// The token collaborator's identity.
        token_program: Address,
        /// The account closed.
        account: Address,
        /// The account credited with the remaining balance.
        destination: Address,
        /// Who authorizes the closure: the account's authority.
        authorization: AuthorizationProof,
    },
}

/// The identities and balances the open handler reads, in the order the
/// host supplies them.  The trade record account's data travels beside this
/// struct as a byte slice.
#[derive(Clone, Copy, Debug)]
pub struct OpenAccounts {
    /// The seller opening the trade: the transaction's signer.
    pub seller_pubkey: Address,
    /// The seller's receive account for the counter-asset.
    pub seller_token_account_pubkey: Address,
    /// The held account, pre-funded with the seller's deposit.
    pub temp_token_account_pubkey: Address,
    /// The held account's current owner.
    pub temp_token_account_owner: Address,
    /// The trade record account's balance.
    pub escrow_account_lamports: u64,
    /// The token collaborator's identity.
    pub token_program_pubkey: Address,
}

/// The identities and balances the settle handler reads, in the order the
/// host supplies them.  The held account's data and the trade record
/// account's data travel beside this struct as byte slices.
#[derive(Clone, Copy, Debug)]
pub struct ExchangeAccounts {
    /// The buyer settling the trade: the transaction's signer.
    pub buyer_pubkey: Address,
    /// The buyer's pay-out account for the counter-asset.
    pub buyer_send_token_account_pubkey: Address,
    /// The buyer's receive account for the held asset.
    pub buyer_receive_token_account_pubkey: Address,
    /// The held account.
    pub temp_token_account_pubkey: Address,
    /// The seller's main account, paid the reclaimed rent.
    pub seller_pubkey: Address,
    /// The seller's main account's balance.
    pub seller_account_lamports: u64,
    /// The seller's receive account for the counter-asset.
    pub seller_token_account_pubkey: Address,
    /// The trade record account's balance.
    pub escrow_account_lamports: u64,
    /// The token collaborator's identity.
    pub token_program_pubkey: Address,
    /// The derived authority's account, passed through to the collaborator.
    pub pda_account_pubkey: Address,
}

/// What a successful open asks of the host: write the new record and hand
/// the held account to the derived authority.
#[derive(Clone, Debug)]
pub struct OpenEffects {
    /// The trade record now in force.
    pub escrow: Escrow,
    /// Its encoding, to be written into the trade record account.
    pub escrow_account_data: Vec<u8>,
    /// The authority delegation to request of the token collaborator,
    /// authorized by the seller.
    pub delegation: TokenOp,
}

/// What a successful settle asks of the host, in strict order: pay the
/// seller, release the held asset to the buyer, close the held account, and
/// destroy the trade record.
#[derive(Clone, Debug)]
pub struct ExchangeEffects {
    /// Pay the seller's receive account the expected amount from the
    /// buyer's pay-out account, authorized by the buyer.
    pub payment: TokenOp,
    /// Release the held account's full balance to the buyer's receive
    /// account, authorized by the derived authority.
    pub release: TokenOp,
    /// Close the held account, crediting its rent to the seller, authorized
    /// by the derived authority.
    pub close_held: TokenOp,
    /// The seller's main account's balance after reclaiming the record's
    /// rent.
    pub seller_account_lamports: u64,
    /// The trade record account's balance after settlement: zero.
    pub escrow_account_lamports: u64,
    /// The trade record account's data after settlement: empty.
    pub escrow_account_data: Vec<u8>,
}

/// The effects of one processed instruction.
#[derive(Clone, Debug)]
pub enum ProcessEffects {
    /// An open ran: a trade was initialized.
    Initialized(OpenEffects),
    /// A settle ran: a trade was completed and removed.
    Exchanged(ExchangeEffects),
}

/// The open transition.
///
/// Checked in order: the held account must be owned by the token
/// collaborator; the record account must be rent-exempt; the record must
/// decode; the record must not already hold a trade.  On success the new
/// record carries the seller's identities and the expected amount, and one
/// sub-operation hands the held account to the derived authority, authorized
/// by the seller.
pub open spec fn spec_open(
    program_id: Address,
    accounts: OpenAccounts,
    escrow_account_data: Seq<u8>,
    amount: u64,
    record_minimum_balance: u64,
) -> Result<(Escrow, TokenOp), EscrowError> {
    if accounts.temp_token_account_owner@ != accounts.token_program_pubkey@ {
        Err(EscrowError::WrongOwner)
    } else if accounts.escrow_account_lamports < record_minimum_balance {
        Err(EscrowError::NotRentExempt)
    } else if !spec_escrow_decode_ok(escrow_account_data) {
        Err(EscrowError::MalformedInstruction)
    } else if escrow_account_data[0] == 1 {
        Err(EscrowError::AlreadyInitialized)
    } else {
        match spec_derived_authority(program_id) {
            None => Err(EscrowError::AuthorityUnavailable),
            Some(derived) => {
                let record = Escrow {
                    is_initialized: true,
                    seller_pubkey: accounts.seller_pubkey,
                    seller_token_account_pubkey: accounts.seller_token_account_pubkey,
                    temp_token_account_pubkey: accounts.temp_token_account_pubkey,
                    amount: amount,
                };
                let delegation = TokenOp::SetAuthority {
                    token_program: accounts.token_program_pubkey,
                    account: accounts.temp_token_account_pubkey,
                    new_authority: derived.0,
                    authorization: AuthorizationProof::Signer { key: accounts.seller_pubkey },
                };
                Ok((record, delegation))
            },
        }
    }
}

/// The settle transition.
///
/// Checked in order: the held account's data must decode; its balance must
/// equal the amount the buyer claims to have observed; the record must
/// decode; the record must hold an initialized trade; the held account, the
/// seller and the seller's receive account must be the ones recorded when
/// the trade was opened.  On success the result carries, in strict order,
/// the payment of the expected amount to the seller, the release of the
/// held balance to the buyer, the closure of the held account toward the
/// seller, and the seller's balance after reclaiming the record's rent.
pub open spec fn spec_exchange(
    program_id: Address,
    accounts: ExchangeAccounts,
    temp_token_account_data: Seq<u8>,
    escrow_account_data: Seq<u8>,
    amount: u64,
) -> Result<(TokenOp, TokenOp, TokenOp, u64), EscrowError> {
    match spec_token_account_amount(temp_token_account_data) {
        None => Err(EscrowError::MalformedInstruction),
        Some(held_amount) => {
            if amount != held_amount {
                Err(EscrowError::AmountMismatch)
            } else if !spec_escrow_decode_ok(escrow_account_data) {
                Err(EscrowError::MalformedInstruction)
            } else if escrow_account_data[0] != 1 {
                Err(EscrowError::UninitializedTrade)
            } else if escrow_account_data.subrange(65, 97)
                != accounts.temp_token_account_pubkey@ {
                Err(EscrowError::AccountMismatch)
            } else if escrow_account_data.subrange(1, 33) != accounts.seller_pubkey@ {
                Err(EscrowError::AccountMismatch)
            } else if escrow_account_data.subrange(33, 65)
                != accounts.seller_token_account_pubkey@ {
                Err(EscrowError::AccountMismatch)
            } else {
                match spec_derived_authority(program_id) {
                    None => Err(EscrowError::AuthorityUnavailable),
                    Some(derived) => {
                        if accounts.seller_account_lamports + accounts.escrow_account_lamports
                            > u64::MAX {
                            Err(EscrowError::ArithmeticOverflow)
                        } else {
                            let payment = TokenOp::Transfer {
                                token_program: accounts.token_program_pubkey,
                                source: accounts.buyer_send_token_account_pubkey,
                                destination: accounts.seller_token_account_pubkey,
                                amount: spec_u64_from_le_bytes(
                                    escrow_account_data.subrange(97, 105),
                                ),
                                authorization: AuthorizationProof::Signer {
                                    key: accounts.buyer_pubkey,
                                },
                            };
                            let release = TokenOp::Transfer {
                                token_program: accounts.token_program_pubkey,
                                source: accounts.temp_token_account_pubkey,
                                destination: accounts.buyer_receive_token_account_pubkey,
                                amount: held_amount,
                                authorization: AuthorizationProof::Derived {
                                    address: derived.0,
                                    disambiguation: derived.1,
                                },
                            };
                            let close_held = TokenOp::CloseAccount {
                                token_program: accounts.token_program_pubkey,
                                account: accounts.temp_token_account_pubkey,
                                destination: accounts.seller_pubkey,
                                authorization: AuthorizationProof::Derived {
                                    address: derived.0,
                                    disambiguation: derived.1,
                                },
                            };
                            Ok(
                                (
                                    payment,
                                    release,
                                    close_held,
                                    (accounts.seller_account_lamports
                                        + accounts.escrow_account_lamports) as u64,
                                ),
                            )
                        }
                    },
                }
            }
        },
    }
}

/// The accounts the open handler reads, picked out of the host's ordered
/// account list.  Position 4, the rent oracle, contributes nothing here: the
/// oracle's answer travels as the entry point's minimum-balance argument.
pub open spec fn spec_open_accounts(accounts: Seq<AccountRecord>) -> OpenAccounts
    recommends
        accounts.len() >= OPEN_ACCOUNT_COUNT,
{
    OpenAccounts {
        seller_pubkey: accounts[0].key,
        seller_token_account_pubkey: accounts[1].key,
        temp_token_account_pubkey: accounts[2].key,
        temp_token_account_owner: accounts[2].owner,
        escrow_account_lamports: accounts[3].lamports,
        token_program_pubkey: accounts[5].key,
    }
}

/// The accounts the settle handler reads, picked out of the host's ordered
/// account list.
pub open spec fn spec_exchange_accounts(accounts: Seq<AccountRecord>) -> ExchangeAccounts
    recommends
        accounts.len() >= EXCHANGE_ACCOUNT_COUNT,
{
    ExchangeAccounts {
        buyer_pubkey: accounts[0].key,
        buyer_send_token_account_pubkey: accounts[1].key,
        buyer_receive_token_account_pubkey: accounts[2].key,
        temp_token_account_pubkey: accounts[3].key,
        seller_pubkey: accounts[4].key,
        seller_account_lamports: accounts[4].lamports,
        seller_token_account_pubkey: accounts[5].key,
        escrow_account_lamports: accounts[6].lamports,
        token_program_pubkey: accounts[7].key,
        pda_account_pubkey: accounts[8].key,
    }
}

/// Processor drives the escrow state machine: it decodes an instruction,
/// dispatches to the open or settle handler and hands back the effects.
pub struct Processor;

impl Processor {
    /// Open a trade.
    ///
    /// On success the effects hold the initialized record, its encoding and
    /// the authority delegation; on failure the error is the first violated
    /// invariant, exactly as `spec_open` lays it down.
    pub fn process_init(
        program_id: &Address,
        accounts: &OpenAccounts,
        escrow_account_data: &[u8],
        amount: u64,
        record_minimum_balance: u64,
    ) -> (r: Result<OpenEffects, EscrowError>)
        ensures
            spec_open(*program_id, *accounts, escrow_account_data@, amount, record_minimum_balance)
                matches Ok(pair) ==> r matches Ok(eff) && eff.escrow == pair.0 && eff.delegation
                == pair.1 && eff.escrow_account_data@ == spec_escrow_bytes(pair.0),
            spec_open(*program_id, *accounts, escrow_account_data@, amount, record_minimum_balance)
                matches Err(e) ==> r == Err::<OpenEffects, EscrowError>(e),
    {
        if !account_owned_by(&accounts.temp_token_account_owner, &accounts.token_program_pubkey) {
            return Err(EscrowError::WrongOwner);
        }
        if !is_rent_exempt(accounts.escrow_account_lamports, record_minimum_balance) {
            return Err(EscrowError::NotRentExempt);
        }
        let state = match Escrow::decode(escrow_account_data) {
            None => {
                return Err(EscrowError::MalformedInstruction);
            },
            Some(s) => s,
        };
        proof {
            lemma_escrow_bytes_fields(state);
        }
        if state.is_initialized() {
            return Err(EscrowError::AlreadyInitialized);
        }
        let derived = match derive_trade_authority(program_id) {
            None => {
                return Err(EscrowError::AuthorityUnavailable);
            },
            Some(d) => d,
        };
        let record = Escrow {
            is_initialized: true,
            seller_pubkey: accounts.seller_pubkey,
            seller_token_account_pubkey: accounts.seller_token_account_pubkey,
            temp_token_account_pubkey: accounts.temp_token_account_pubkey,
            amount,
        };
        let record_data = record.encode();
        Ok(
            OpenEffects {
                escrow: record,
                escrow_account_data: record_data,
                delegation: TokenOp::SetAuthority {
                    token_program: accounts.token_program_pubkey,
                    account: accounts.temp_token_account_pubkey,
                    new_authority: derived.0,
                    authorization: AuthorizationProof::Signer { key: accounts.seller_pubkey },
                },
            },
        )
    }

    /// Settle a trade.
    ///
    /// On success the effects hold the three sub-operations and the balance
    /// moves that destroy the record; on failure the error is the first
    /// violated invariant, exactly as `spec_exchange` lays it down.
    pub fn process_exchange(
        program_id: &Address,
        accounts: &ExchangeAccounts,
        temp_token_account_data: &[u8],
        escrow_account_data: &[u8],
        amount: u64,
    ) -> (r: Result<ExchangeEffects, EscrowError>)
        ensures
            spec_exchange(
                *program_id,
                *accounts,
                temp_token_account_data@,
                escrow_account_data@,
                amount,
            ) matches Ok(ops) ==> r matches Ok(eff) && eff.payment == ops.0 && eff.release == ops.1
                && eff.close_held == ops.2 && eff.seller_account_lamports == ops.3
                && eff.escrow_account_lamports == 0 && eff.escrow_account_data@ == Seq::<
                u8,
            >::empty(),
            spec_exchange(
                *program_id,
                *accounts,
                temp_token_account_data@,
                escrow_account_data@,
                amount,
            ) matches Err(e) ==> r == Err::<ExchangeEffects, EscrowError>(e),
    {
        let held_amount = match unpack_token_account_amount(temp_token_account_data) {
            None => {
                return Err(EscrowError::MalformedInstruction);
            },
            Some(h) => h,
        };
        if !amount_matches(held_amount, amount) {
            return Err(EscrowError::AmountMismatch);
        }
        let state = match Escrow::decode(escrow_account_data) {
            None => {
                return Err(EscrowError::MalformedInstruction);
            },
            Some(s) => s,
        };
        proof {
            lemma_escrow_bytes_fields(state);
            lemma_auto_spec_u64_to_from_le_bytes();
        }
        if !state.is_initialized() {
            return Err(EscrowError::UninitializedTrade);
        }
        if !address_eq(&state.temp_token_account_pubkey, &accounts.temp_token_account_pubkey) {
            return Err(EscrowError::AccountMismatch);
        }
        if !address_eq(&state.seller_pubkey, &accounts.seller_pubkey) {
            return Err(EscrowError::AccountMismatch);
        }
        if !address_eq(&state.seller_token_account_pubkey, &accounts.seller_token_account_pubkey) {
            return Err(EscrowError::AccountMismatch);
        }
        let derived = match derive_trade_authority(program_id) {
            None => {
                return Err(EscrowError::AuthorityUnavailable);
            },
            Some(d) => d,
        };
        let seller_account_lamports = match accounts.seller_account_lamports.checked_add(
            accounts.escrow_account_lamports,
        ) {
            None => {
                return Err(EscrowError::ArithmeticOverflow);
            },
            Some(v) => v,
        };
        Ok(
            ExchangeEffects {
                payment: TokenOp::Transfer {
                    token_program: accounts.token_program_pubkey,
                    source: accounts.buyer_send_token_account_pubkey,
                    destination: accounts.seller_token_account_pubkey,
                    amount: state.amount,
                    authorization: AuthorizationProof::Signer { key: accounts.buyer_pubkey },
                },
                release: TokenOp::Transfer {
                    token_program: accounts.token_program_pubkey,
                    source: accounts.temp_token_account_pubkey,
                    destination: accounts.buyer_receive_token_account_pubkey,
                    amount: held_amount,
                    authorization: AuthorizationProof::Derived {
                        address: derived.0,
                        disambiguation: derived.1,
                    },
                },
                close_held: TokenOp::CloseAccount {
                    token_program: accounts.token_program_pubkey,
                    account: accounts.temp_token_account_pubkey,
                    destination: accounts.seller_pubkey,
                    authorization: AuthorizationProof::Derived {
                        address: derived.0,
                        disambiguation: derived.1,
                    },
                },
                seller_account_lamports,
                escrow_account_lamports: 0,
                escrow_account_data: Vec::new(),
            },
        )
    }

    /// Handle one instruction: the single entry point toward the host.
    ///
    /// Decodes the instruction buffer, checks that the host supplied enough
    /// accounts, and dispatches to the open or settle handler.  The
    /// minimum-balance argument is the rent oracle's answer for the trade
    /// record account's size; only the open handler consults it.
    pub fn process(
        program_id: &Address,
        accounts: &Vec<AccountRecord>,
        input: &[u8],
        record_minimum_balance: u64,
    ) -> (r: Result<ProcessEffects, EscrowError>)
        ensures
            spec_decode_instruction(input@) is None ==> r == Err::<ProcessEffects, EscrowError>(
                EscrowError::MalformedInstruction,
            ),
            spec_decode_instruction(input@) matches Some(Instruction::Initialize(amount)) ==> ({
                if accounts@.len() < OPEN_ACCOUNT_COUNT {
                    r == Err::<ProcessEffects, EscrowError>(EscrowError::NotEnoughAccounts)
                } else {
                    match spec_open(
                        *program_id,
                        spec_open_accounts(accounts@),
                        accounts@[3].data@,
                        amount,
                        record_minimum_balance,
                    ) {
                        Ok(pair) => r matches Ok(ProcessEffects::Initialized(eff)) && eff.escrow
                            == pair.0 && eff.delegation == pair.1 && eff.escrow_account_data@
                            == spec_escrow_bytes(pair.0),
                        Err(e) => r == Err::<ProcessEffects, EscrowError>(e),
                    }
                }
            }),
            spec_decode_instruction(input@) matches Some(Instruction::Exchange(amount)) ==> ({
                if accounts@.len() < EXCHANGE_ACCOUNT_COUNT {
                    r == Err::<ProcessEffects, EscrowError>(EscrowError::NotEnoughAccounts)
                } else {
                    match spec_exchange(
                        *program_id,
                        spec_exchange_accounts(accounts@),
                        accounts@[3].data@,
                        accounts@[6].data@,
                        amount,
                    ) {
                        Ok(ops) => r matches Ok(ProcessEffects::Exchanged(eff)) && eff.payment
                            == ops.0 && eff.release == ops.1 && eff.close_held == ops.2
                            && eff.seller_account_lamports == ops.3 && eff.escrow_account_lamports
                            == 0 && eff.escrow_account_data@ == Seq::<u8>::empty(),
                        Err(e) => r == Err::<ProcessEffects, EscrowError>(e),
                    }
                }
            }),
    {
        let instruction = match Instruction::decode(input) {
            None => {
                return Err(EscrowError::MalformedInstruction);
            },
            Some(ix) => ix,
        };
        match instruction {
            Instruction::Initialize(amount) => {
                if accounts.len() < OPEN_ACCOUNT_COUNT {
                    return Err(EscrowError::NotEnoughAccounts);
                }
                let open_accounts = OpenAccounts {
                    seller_pubkey: accounts[0].key,
                    seller_token_account_pubkey: accounts[1].key,
                    temp_token_account_pubkey: accounts[2].key,
                    temp_token_account_owner: accounts[2].owner,
                    escrow_account_lamports: accounts[3].lamports,
                    token_program_pubkey: accounts[5].key,
                };
                match Self::process_init(
                    program_id,
                    &open_accounts,
                    accounts[3].data.as_slice(),
                    amount,
                    record_minimum_balance,
                ) {
                    Ok(effects) => Ok(ProcessEffects::Initialized(effects)),
                    Err(e) => Err(e),
                }
            },
            Instruction::Exchange(amount) => {
                if accounts.len() < EXCHANGE_ACCOUNT_COUNT {
                    return Err(EscrowError::NotEnoughAccounts);
                }
                let exchange_accounts = ExchangeAccounts {
                    buyer_pubkey: accounts[0].key,
                    buyer_send_token_account_pubkey: accounts[1].key,
                    buyer_receive_token_account_pubkey: accounts[2].key,
                    temp_token_account_pubkey: accounts[3].key,
                    seller_pubkey: accounts[4].key,
                    seller_account_lamports: accounts[4].lamports,
                    seller_token_account_pubkey: accounts[5].key,
                    escrow_account_lamports: accounts[6].lamports,
                    token_program_pubkey: accounts[7].key,
                    pda_account_pubkey: accounts[8].key,
                };
                match Self::process_exchange(
                    program_id,
                    &exchange_accounts,
                    accounts[3].data.as_slice(),
                    accounts[6].data.as_slice(),
                    amount,
                ) {
                    Ok(effects) => Ok(ProcessEffects::Exchanged(effects)),
                    Err(e) => Err(e),
                }
            },
        }
    }
}

/// Law: every valid open yields an initialized record carrying the caller's
/// identities and the expected amount, and one sub-operation that hands the
/// held account to the derived authority, authorized by the seller.  The
/// host applies that sub-operation, so after it the held account's
/// authority equals the derived authority.
pub proof fn lemma_open_initializes(
    program_id: Address,
    accounts: OpenAccounts,
    escrow_account_data: Seq<u8>,
    amount: u64,
    record_minimum_balance: u64,
)
    requires
        spec_open(program_id, accounts, escrow_account_data, amount, record_minimum_balance)
            is Ok,
    ensures
        ({
            let pair = spec_open(
                program_id,
                accounts,
                escrow_account_data,
                amount,
                record_minimum_balance,
            )->Ok_0;
            &&& pair.0.is_initialized
            &&& pair.0.seller_pubkey == accounts.seller_pubkey
            &&& pair.0.seller_token_account_pubkey == accounts.seller_token_account_pubkey
            &&& pair.0.temp_token_account_pubkey == accounts.temp_token_account_pubkey
            &&& pair.0.amount == amount
            &&& spec_derived_authority(program_id) is Some
            &&& pair.1 == (TokenOp::SetAuthority {
                token_program: accounts.token_program_pubkey,
                account: accounts.temp_token_account_pubkey,
                new_authority: spec_derived_authority(program_id)->Some_0.0,
                authorization: AuthorizationProof::Signer { key: accounts.seller_pubkey },
            })
        }),
{
}

/// Law: a second open against a record that a first open has just written
/// always fails with `AlreadyInitialized`, whatever amount it asks for.
pub proof fn lemma_reopen_fails(
    program_id: Address,
    accounts: OpenAccounts,
    escrow_account_data: Seq<u8>,
    first_amount: u64,
    second_amount: u64,
    record_minimum_balance: u64,
)
    requires
        spec_open(program_id, accounts, escrow_account_data, first_amount, record_minimum_balance)
            is Ok,
    ensures
        ({
            let record = spec_open(
                program_id,
                accounts,
                escrow_account_data,
                first_amount,
                record_minimum_balance,
            )->Ok_0.0;
            spec_open(
                program_id,
                accounts,
                spec_escrow_bytes(record),
                second_amount,
                record_minimum_balance,
            ) == Err::<(Escrow, TokenOp), EscrowError>(EscrowError::AlreadyInitialized)
        }),
{
    let record = spec_open(
        program_id,
        accounts,
        escrow_account_data,
        first_amount,
        record_minimum_balance,
    )->Ok_0.0;
    lemma_escrow_bytes_fields(record);
}

/// Law: every valid settle moves the balances exactly — the seller's
/// receive account is paid the recorded expected amount from the buyer's
/// pay-out account, the buyer's receive account is paid the held account's
/// whole pre-settlement balance, the held account is closed toward the
/// seller, and the seller's main account reclaims the record's rent.  The
/// record itself is zeroed: the handler's contract pins its balance to 0
/// and its data to empty.
pub proof fn lemma_settle_effects(
    program_id: Address,
    accounts: ExchangeAccounts,
    temp_token_account_data: Seq<u8>,
    escrow_account_data: Seq<u8>,
    amount: u64,
)
    requires
        spec_exchange(program_id, accounts, temp_token_account_data, escrow_account_data, amount)
            is Ok,
    ensures
        ({
            let ops = spec_exchange(
                program_id,
                accounts,
                temp_token_account_data,
                escrow_account_data,
                amount,
            )->Ok_0;
            let held_amount = spec_token_account_amount(temp_token_account_data)->Some_0;
            let expected_amount = spec_u64_from_le_bytes(escrow_account_data.subrange(97, 105));
            let derived = spec_derived_authority(program_id)->Some_0;
            &&& held_amount == amount
            &&& ops.0 == (TokenOp::Transfer {
                token_program: accounts.token_program_pubkey,
                source: accounts.buyer_send_token_account_pubkey,
                destination: accounts.seller_token_account_pubkey,
                amount: expected_amount,
                authorization: AuthorizationProof::Signer { key: accounts.buyer_pubkey },
            })
            &&& ops.1 == (TokenOp::Transfer {
                token_program: accounts.token_program_pubkey,
                source: accounts.temp_token_account_pubkey,
                destination: accounts.buyer_receive_token_account_pubkey,
                amount: held_amount,
                authorization: AuthorizationProof::Derived {
                    address: derived.0,
                    disambiguation: derived.1,
                },
            })
            &&& ops.2 == (TokenOp::CloseAccount {
                token_program: accounts.token_program_pubkey,
                account: accounts.temp_token_account_pubkey,
                destination: accounts.seller_pubkey,
                authorization: AuthorizationProof::Derived {
                    address: derived.0,
                    disambiguation: derived.1,
                },
            })
            &&& ops.3 == accounts.seller_account_lamports + accounts.escrow_account_lamports
        }),
{
}

/// Law: settlement fails with `AmountMismatch` whenever the supplied amount
/// differs from the held account's actual balance — for any mismatching
/// value, zero and values beyond any real supply included.
pub proof fn lemma_settle_amount_mismatch(
    program_id: Address,
    accounts: ExchangeAccounts,
    temp_token_account_data: Seq<u8>,
    escrow_account_data: Seq<u8>,
    amount: u64,
)
    requires
        spec_token_account_amount(temp_token_account_data) is Some,
        amount != spec_token_account_amount(temp_token_account_data)->Some_0,
    ensures
        spec_exchange(program_id, accounts, temp_token_account_data, escrow_account_data, amount)
            == Err::<(TokenOp, TokenOp, TokenOp, u64), EscrowError>(EscrowError::AmountMismatch),
{
}

/// Law: settlement fails with `AccountMismatch` when the held account
/// supplied differs from the one recorded at open time, however the other
/// checks come out before it.
pub proof fn lemma_settle_wrong_held_account(
    program_id: Address,
    accounts: ExchangeAccounts,
    temp_token_account_data: Seq<u8>,
    escrow_account_data: Seq<u8>,
    amount: u64,
)
    requires
        spec_token_account_amount(temp_token_account_data) == Some(amount),
        spec_escrow_decode_ok(escrow_account_data),
        escrow_account_data[0] == 1,
        escrow_account_data.subrange(65, 97) != accounts.temp_token_account_pubkey@,
    ensures
        spec_exchange(program_id, accounts, temp_token_account_data, escrow_account_data, amount)
            == Err::<(TokenOp, TokenOp, TokenOp, u64), EscrowError>(EscrowError::AccountMismatch),
{
}

/// Law: settlement fails with `AccountMismatch` when the seller supplied
/// differs from the one recorded at open time, even though the held account
/// matches.
pub proof fn lemma_settle_wrong_seller(
    program_id: Address,
    accounts: ExchangeAccounts,
    temp_token_account_data: Seq<u8>,
    escrow_account_data: Seq<u8>,
    amount: u64,
)
    requires
        spec_token_account_amount(temp_token_account_data) == Some(amount),
        spec_escrow_decode_ok(escrow_account_data),
        escrow_account_data[0] == 1,
        escrow_account_data.subrange(65, 97) == accounts.temp_token_account_pubkey@,
        escrow_account_data.subrange(1, 33) != accounts.seller_pubkey@,
    ensures
        spec_exchange(program_id, accounts, temp_token_account_data, escrow_account_data, amount)
            == Err::<(TokenOp, TokenOp, TokenOp, u64), EscrowError>(EscrowError::AccountMismatch),
{
}

/// Law: settlement fails with `AccountMismatch` when the seller's receive
/// account supplied differs from the one recorded at open time, even though
/// the held account and the seller match.
pub proof fn lemma_settle_wrong_seller_token_account(
    program_id: Address,
    accounts: ExchangeAccounts,
    temp_token_account_data: Seq<u8>,
    escrow_account_data: Seq<u8>,
    amount: u64,
)
    requires
        spec_token_account_amount(temp_token_account_data) == Some(amount),
        spec_escrow_decode_ok(escrow_account_data),
        escrow_account_data[0] == 1,
        escrow_account_data.subrange(65, 97) == accounts.temp_token_account_pubkey@,
        escrow_account_data.subrange(1, 33) == accounts.seller_pubkey@,
        escrow_account_data.subrange(33, 65) != accounts.seller_token_account_pubkey@,
    ensures
        spec_exchange(program_id, accounts, temp_token_account_data, escrow_account_data, amount)
            == Err::<(TokenOp, TokenOp, TokenOp, u64), EscrowError>(EscrowError::AccountMismatch),
{
}

/// Law: a settle against a record that was never opened — still zero-filled,
/// or in any decodable state whose flag byte is 0 — fails with
/// `UninitializedTrade`.
pub proof fn lemma_settle_uninitialized(
    program_id: Address,
    accounts: ExchangeAccounts,
    temp_token_account_data: Seq<u8>,
    escrow_account_data: Seq<u8>,
    amount: u64,
)
    requires
        spec_token_account_amount(temp_token_account_data) == Some(amount),
        spec_escrow_decode_ok(escrow_account_data),
        escrow_account_data[0] == 0,
    ensures
        spec_exchange(program_id, accounts, temp_token_account_data, escrow_account_data, amount)
            == Err::<(TokenOp, TokenOp, TokenOp, u64), EscrowError>(
            EscrowError::UninitializedTrade,
        ),
{
}

} // verus!
