//! A custodial fixed-rate swap: one escrow record per owner, a token vault held
//! under the escrow's authority, and four operations over them. Each operation
//! either succeeds as a whole or fails with every account left as it was.
pub mod address;
pub mod deposit;
pub mod error;
pub mod initialize;
pub mod laws;
pub mod state;
pub mod swap;
pub mod withdraw;

use crate::address::{derive_escrow, Address};
use crate::deposit::{deposit_outcome, Deposit};
use crate::error::ErrorCode;
use crate::initialize::{canonical_tag, has_escrow_address, initialize_outcome, lemma_canonical_tag_unique, Initialize};
use crate::state::{check_escrow, check_token_account};
use crate::swap::{swap_outcome, Swap};
use crate::withdraw::{withdraw_outcome, Withdraw};
use vstd::prelude::*;

verus! {

/// Creates the signer's escrow record at the address derived from "escrow",
/// the signer and the derivation's tag, funding the account to the
/// rent-exempt minimum from the signer.
pub fn initialize(accounts: &mut Initialize, program_id: &Address) -> (r: Result<(), ErrorCode>)
    ensures
        match initialize_outcome(*old(accounts), program_id@) {
            Ok(post) => r == Ok::<(), ErrorCode>(()) && *final(accounts) == post,
            Err(e) => r == Err::<(), ErrorCode>(e) && *final(accounts) == *old(accounts),
        },
{
    let (key, bump) = match derive_escrow(&accounts.signer.key, program_id) {
        Ok(found) => found,
        Err(e) => {
            return Err(e);
        },
    };
    proof {
        let owner = accounts.signer.key@;
        assert(has_escrow_address(owner, program_id@));
        lemma_canonical_tag_unique(owner, bump, canonical_tag(owner, program_id@), program_id@);
    }
    if !(key == accounts.escrow.key) {
        return Err(ErrorCode::ConstraintSeeds);
    }
    if accounts.escrow.data.is_some() {
        return Err(ErrorCode::AccountAlreadyInitialized);
    }
    let top_up = accounts.rent_minimum.saturating_sub(accounts.escrow.lamports);
    if accounts.signer.lamports < top_up {
        return Err(ErrorCode::InsufficientLamports);
    }
    accounts.signer.lamports = accounts.signer.lamports - top_up;
    accounts.escrow.lamports = accounts.escrow.lamports + top_up;
    accounts.initialize(bump)
}

/// Credits `amount` tokens from the signer to the escrow's vault, making the
/// vault first where it is absent. Anyone may deposit.
pub fn deposit(accounts: &mut Deposit, program_id: &Address, amount: u64) -> (r: Result<(), ErrorCode>)
    ensures
        match deposit_outcome(*old(accounts), program_id@, amount) {
            Ok(post) => r == Ok::<(), ErrorCode>(()) && *final(accounts) == post,
            Err(e) => r == Err::<(), ErrorCode>(e) && *final(accounts) == *old(accounts),
        },
{
    match check_escrow(&accounts.escrow, program_id) {
        Some(e) => {
            return Err(e);
        },
        None => {},
    }
    match check_token_account(&accounts.user_token_account, &accounts.token_mint, &accounts.signer.key) {
        Some(e) => {
            return Err(e);
        },
        None => {},
    }
    match &accounts.vault_token_account {
        Some(v) => match check_token_account(v, &accounts.token_mint, &accounts.escrow.key) {
            Some(e) => {
                return Err(e);
            },
            None => {},
        },
        None => {},
    }
    let mut next = *accounts;
    next.open_vault()?;
    next.deposit(amount)?;
    *accounts = next;
    Ok(())
}

/// Sells tokens from the vault for `payer_amount` native currency at the fixed
/// rate. Anyone may swap. Returns the tokens paid out.
pub fn swap(accounts: &mut Swap, program_id: &Address, payer_amount: u64) -> (r: Result<u64, ErrorCode>)
    ensures
        match swap_outcome(*old(accounts), program_id@, payer_amount) {
            Ok((post, out)) => r == Ok::<u64, ErrorCode>(out) && *final(accounts) == post,
            Err(e) => r == Err::<u64, ErrorCode>(e) && *final(accounts) == *old(accounts),
        },
{
    match check_escrow(&accounts.escrow, program_id) {
        Some(e) => {
            return Err(e);
        },
        None => {},
    }
    match check_token_account(&accounts.user_token_account, &accounts.token_mint, &accounts.signer.key) {
        Some(e) => {
            return Err(e);
        },
        None => {},
    }
    match check_token_account(&accounts.vault_token_account, &accounts.token_mint, &accounts.escrow.key) {
        Some(e) => {
            return Err(e);
        },
        None => {},
    }
    accounts.swap(payer_amount)
}

/// Pays the owner all the escrow holds above the rent-exempt minimum. Only the
/// owner may withdraw.
pub fn withdraw(accounts: &mut Withdraw, program_id: &Address) -> (r: Result<(), ErrorCode>)
    ensures
        match withdraw_outcome(*old(accounts), program_id@) {
            Ok(post) => r == Ok::<(), ErrorCode>(()) && *final(accounts) == post,
            Err(e) => r == Err::<(), ErrorCode>(e) && *final(accounts) == *old(accounts),
        },
{
    match check_escrow(&accounts.escrow, program_id) {
        Some(e) => {
            return Err(e);
        },
        None => {},
    }
    accounts.withdraw()
}

} // verus!
