use crate::address::{escrow_address, is_escrow_address, Address};
use crate::error::ErrorCode;
use vstd::prelude::*;

verus! {

/// The record an owner's escrow account holds.
#[derive(Clone, Copy, Debug)]
pub struct Escrow {
    /// The only one who may withdraw; fixed when the record is made.
    pub owner: Address,
    /// The ledger of the tokens that the vault holds.
    pub token_balance: u64,
    /// The tag that, with "escrow" and the owner, derives the record's address.
    pub derivation_tag: u8,
}

/// The escrow account: its address, its native-currency balance, and its
/// record once Initialize has written one.
#[derive(Clone, Copy, Debug)]
pub struct EscrowAccount {
    pub key: Address,
    pub lamports: u64,
    pub data: Option<Escrow>,
}

/// A signer's wallet: its address and its native-currency balance.
#[derive(Clone, Copy, Debug)]
pub struct Wallet {
    pub key: Address,
    pub lamports: u64,
}

/// A token account: the mint of its tokens, the authority that may move them,
/// and how many it holds.
#[derive(Clone, Copy, Debug)]
pub struct TokenAccount {
    pub mint: Address,
    pub authority: Address,
    pub amount: u64,
}

/// Why the escrow account cannot be used, if it cannot: it holds no record,
/// or it does not sit at the address derived from its record.
pub open spec fn escrow_check(e: EscrowAccount, program_id: Seq<u8>) -> Option<ErrorCode> {
    match e.data {
        None => Some(ErrorCode::AccountNotInitialized),
        Some(d) => if escrow_address(d.owner@, d.derivation_tag, program_id) == Some(e.key@) {
            None
        } else {
            Some(ErrorCode::ConstraintSeeds)
        },
    }
}

/// Why a token account cannot be used with `mint` under `authority`, if it
/// cannot.
pub open spec fn token_account_check(t: TokenAccount, mint: Seq<u8>, authority: Seq<u8>) -> Option<ErrorCode> {
    if t.mint@ != mint {
        Some(ErrorCode::ConstraintTokenMint)
    } else if t.authority@ != authority {
        Some(ErrorCode::ConstraintTokenOwner)
    } else {
        None
    }
}

/// Checks that the escrow account holds a record and sits at its derived
/// address.
pub fn check_escrow(e: &EscrowAccount, program_id: &Address) -> (r: Option<ErrorCode>)
    ensures
        r == escrow_check(*e, program_id@),
{
    match &e.data {
        None => Some(ErrorCode::AccountNotInitialized),
        Some(d) => if is_escrow_address(&e.key, &d.owner, d.derivation_tag, program_id) {
            None
        } else {
            Some(ErrorCode::ConstraintSeeds)
        },
    }
}

/// Checks that a token account holds `mint` and answers to `authority`.
pub fn check_token_account(t: &TokenAccount, mint: &Address, authority: &Address) -> (r: Option<ErrorCode>)
    ensures
        r == token_account_check(*t, mint@, authority@),
{
    if !(t.mint == *mint) {
        Some(ErrorCode::ConstraintTokenMint)
    } else if !(t.authority == *authority) {
        Some(ErrorCode::ConstraintTokenOwner)
    } else {
        None
    }
}

} // verus!
