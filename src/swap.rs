use crate::error::ErrorCode;
use crate::state::{escrow_check, token_account_check, Escrow, EscrowAccount, TokenAccount, Wallet};
use crate::address::Address;
use vstd::prelude::*;

verus! {

/// Native-currency units are priced at `RATE_NUMERATOR / RATE_DENOMINATOR`
/// tokens each, rounded down.
pub const RATE_NUMERATOR: u64 = 130_000_000;

pub const RATE_DENOMINATOR: u64 = 1_000_000_000;

/// The accounts of Swap. The taker signs and pays; the vault pays the tokens.
#[derive(Clone, Copy, Debug)]
pub struct Swap {
    pub escrow: EscrowAccount,
    pub user_token_account: TokenAccount,
    pub vault_token_account: TokenAccount,
    pub signer: Wallet,
    pub token_mint: Address,
}

/// The tokens paid for `payer_amount` units of native currency.
pub open spec fn payout(payer_amount: u64) -> int {
    (payer_amount * RATE_NUMERATOR) as int / RATE_DENOMINATOR as int
}

/// Swap on accounts that passed their checks: the accounts after it and the
/// tokens paid out, or why it fails.
pub open spec fn swap_effect(pre: Swap, payer_amount: u64) -> Result<(Swap, u64), ErrorCode> {
    let e = pre.escrow.data->0;
    let out = payout(payer_amount);
    if pre.signer.lamports < payer_amount {
        Err(ErrorCode::InsufficientLamports)
    } else if pre.escrow.lamports + payer_amount > u64::MAX {
        Err(ErrorCode::ArithmeticOverflow)
    } else if payer_amount * RATE_NUMERATOR > u64::MAX {
        Err(ErrorCode::ArithmeticOverflow)
    } else if out > e.token_balance {
        Err(ErrorCode::ArithmeticUnderflow)
    } else if out > pre.vault_token_account.amount {
        Err(ErrorCode::InsufficientFunds)
    } else if pre.user_token_account.amount + out > u64::MAX {
        Err(ErrorCode::ArithmeticOverflow)
    } else {
        Ok((Swap {
            escrow: EscrowAccount {
                lamports: (pre.escrow.lamports + payer_amount) as u64,
                data: Some(Escrow { token_balance: (e.token_balance - out) as u64, ..e }),
                ..pre.escrow
            },
            signer: Wallet { lamports: (pre.signer.lamports - payer_amount) as u64, ..pre.signer },
            vault_token_account: TokenAccount {
                amount: (pre.vault_token_account.amount - out) as u64,
                ..pre.vault_token_account
            },
            user_token_account: TokenAccount {
                amount: (pre.user_token_account.amount + out) as u64,
                ..pre.user_token_account
            },
            ..pre
        }, out as u64))
    }
}

/// Swap in full: the accounts after it and the tokens paid out, or why it
/// fails.
pub open spec fn swap_outcome(pre: Swap, program_id: Seq<u8>, payer_amount: u64) -> Result<(Swap, u64), ErrorCode> {
    if let Some(e) = escrow_check(pre.escrow, program_id) {
        Err(e)
    } else if let Some(e) = token_account_check(pre.user_token_account, pre.token_mint@, pre.signer.key@) {
        Err(e)
    } else if let Some(e) = token_account_check(pre.vault_token_account, pre.token_mint@, pre.escrow.key@) {
        Err(e)
    } else {
        swap_effect(pre, payer_amount)
    }
}

/// The tokens paid for `payer_amount` units of native currency, or
/// `ArithmeticOverflow` where the product does not fit in 64 bits.
pub fn token_payout(payer_amount: u64) -> (r: Result<u64, ErrorCode>)
    ensures
        match r {
            Ok(out) => payer_amount * RATE_NUMERATOR <= u64::MAX && out == payout(payer_amount),
            Err(e) => payer_amount * RATE_NUMERATOR > u64::MAX && e == ErrorCode::ArithmeticOverflow,
        },
{
    match payer_amount.checked_mul(RATE_NUMERATOR) {
        Some(n) => Ok(n / RATE_DENOMINATOR),
        None => Err(ErrorCode::ArithmeticOverflow),
    }
}

impl Swap {
    /// Takes `payer_amount` native currency from the signer into the escrow,
    /// takes the payout off the ledger and moves it from the vault to the
    /// signer's token account. Returns the payout.
    pub fn swap(&mut self, payer_amount: u64) -> (r: Result<u64, ErrorCode>)
        requires
            old(self).escrow.data is Some,
        ensures
            match swap_effect(*old(self), payer_amount) {
                Ok((post, out)) => r == Ok::<u64, ErrorCode>(out) && *final(self) == post,
                Err(e) => r == Err::<u64, ErrorCode>(e) && *final(self) == *old(self),
            },
    {
        let e = match &self.escrow.data {
            Some(d) => *d,
            None => {
                return Err(ErrorCode::AccountNotInitialized);
            },
        };
        // native currency in: the taker pays the escrow
        if self.signer.lamports < payer_amount {
            return Err(ErrorCode::InsufficientLamports);
        }
        let escrow_lamports = match self.escrow.lamports.checked_add(payer_amount) {
            Some(v) => v,
            None => {
                return Err(ErrorCode::ArithmeticOverflow);
            },
        };
        let out = token_payout(payer_amount)?;
        let balance = match e.token_balance.checked_sub(out) {
            Some(v) => v,
            None => {
                return Err(ErrorCode::ArithmeticUnderflow);
            },
        };
        // tokens out: the vault pays the taker under the escrow's authority
        let vault = match self.vault_token_account.amount.checked_sub(out) {
            Some(v) => v,
            None => {
                return Err(ErrorCode::InsufficientFunds);
            },
        };
        let user = match self.user_token_account.amount.checked_add(out) {
            Some(v) => v,
            None => {
                return Err(ErrorCode::ArithmeticOverflow);
            },
        };
        self.signer.lamports = self.signer.lamports - payer_amount;
        self.escrow.lamports = escrow_lamports;
        self.escrow.data = Some(Escrow { token_balance: balance, ..e });
        self.vault_token_account.amount = vault;
        self.user_token_account.amount = user;
        Ok(out)
    }
}

} // verus!
