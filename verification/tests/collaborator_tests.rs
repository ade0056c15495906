//! Settlement against a held account packed by the token collaborator
//! itself, rather than by hand.

#![allow(deprecated)]

use escrow_core::authority::derive_trade_authority;
use escrow_core::errors::EscrowError;
use escrow_core::processor::{ExchangeAccounts, Processor, TokenOp};
use escrow_core::state::Escrow;
use solana_program::program_option::COption;
use solana_program::program_pack::Pack;
use solana_program::pubkey::Pubkey;
use spl_token::state::{Account as TokenAccount, AccountState};

const PROGRAM_ID: [u8; 32] = [7u8; 32];

fn packed_held_account(owner: [u8; 32], amount: u64) -> Vec<u8> {
    let account = TokenAccount {
        mint: Pubkey::new_from_array([11u8; 32]),
        owner: Pubkey::new_from_array(owner),
        amount,
        delegate: COption::None,
        state: AccountState::Initialized,
        is_native: COption::None,
        delegated_amount: 0,
        close_authority: COption::None,
    };
    let mut data = vec![0u8; TokenAccount::LEN];
    TokenAccount::pack(account, &mut data).expect("the buffer has the packed length");
    data
}

#[test]
fn settle_accepts_collaborator_packed_held_account() {
    let (pda, bump) = derive_trade_authority(&PROGRAM_ID).expect("a derivation exists");
    let record = Escrow {
        is_initialized: true,
        seller_pubkey: [1u8; 32],
        seller_token_account_pubkey: [2u8; 32],
        temp_token_account_pubkey: [3u8; 32],
        amount: 100,
    };
    let accounts = ExchangeAccounts {
        buyer_pubkey: [6u8; 32],
        buyer_send_token_account_pubkey: [8u8; 32],
        buyer_receive_token_account_pubkey: [9u8; 32],
        temp_token_account_pubkey: [3u8; 32],
        seller_pubkey: [1u8; 32],
        seller_account_lamports: 500,
        seller_token_account_pubkey: [2u8; 32],
        escrow_account_lamports: 1_000_000_000,
        token_program_pubkey: [5u8; 32],
        pda_account_pubkey: pda,
    };
    let held_data = packed_held_account(pda, 100);
    let record_data = record.encode();
    let effects =
        Processor::process_exchange(&PROGRAM_ID, &accounts, &held_data, &record_data, 100)
            .expect("a well-formed settle succeeds");
    assert_eq!(
        effects.release,
        TokenOp::Transfer {
            token_program: [5u8; 32],
            source: [3u8; 32],
            destination: [9u8; 32],
            amount: 100,
            authorization: escrow_core::processor::AuthorizationProof::Derived {
                address: pda,
                disambiguation: bump,
            },
        }
    );
    assert_eq!(effects.seller_account_lamports, 500 + 1_000_000_000);
}

#[test]
fn settle_rejects_collaborator_packed_uninitialized_account() {
    let (pda, _) = derive_trade_authority(&PROGRAM_ID).expect("a derivation exists");
    let record = Escrow {
        is_initialized: true,
        seller_pubkey: [1u8; 32],
        seller_token_account_pubkey: [2u8; 32],
        temp_token_account_pubkey: [3u8; 32],
        amount: 100,
    };
    let accounts = ExchangeAccounts {
        buyer_pubkey: [6u8; 32],
        buyer_send_token_account_pubkey: [8u8; 32],
        buyer_receive_token_account_pubkey: [9u8; 32],
        temp_token_account_pubkey: [3u8; 32],
        seller_pubkey: [1u8; 32],
        seller_account_lamports: 500,
        seller_token_account_pubkey: [2u8; 32],
        escrow_account_lamports: 1_000_000_000,
        token_program_pubkey: [5u8; 32],
        pda_account_pubkey: pda,
    };
    let account = TokenAccount {
        mint: Pubkey::new_from_array([11u8; 32]),
        owner: Pubkey::new_from_array(pda),
        amount: 100,
        delegate: COption::None,
        state: AccountState::Uninitialized,
        is_native: COption::None,
        delegated_amount: 0,
        close_authority: COption::None,
    };
    let mut held_data = vec![0u8; TokenAccount::LEN];
    TokenAccount::pack(account, &mut held_data).expect("the buffer has the packed length");
    let record_data = record.encode();
    let result =
        Processor::process_exchange(&PROGRAM_ID, &accounts, &held_data, &record_data, 100);
    assert_eq!(result.unwrap_err(), EscrowError::MalformedInstruction);
}
