use crate::address::Address;
use crate::error::ErrorCode;
use crate::state::{escrow_check, token_account_check, Escrow, EscrowAccount, TokenAccount, Wallet};
use vstd::prelude::*;

verus! {

/// The accounts of Deposit. The vault is absent until the first Deposit makes
/// it, at the signer's cost of `vault_rent_minimum`.
#[derive(Clone, Copy, Debug)]
pub struct Deposit {
    pub escrow: EscrowAccount,
    pub user_token_account: TokenAccount,
    pub vault_token_account: Option<TokenAccount>,
    pub signer: Wallet,
    pub token_mint: Address,
    pub vault_rent_minimum: u64,
}

/// Deposit on accounts that passed their checks and whose vault exists: the
/// accounts after it, or why it fails.
pub open spec fn deposit_effect(pre: Deposit, amount: u64) -> Result<Deposit, ErrorCode> {
    let e = pre.escrow.data->0;
    let vault = pre.vault_token_account->0;
    if e.token_balance + amount > u64::MAX {
        Err(ErrorCode::ArithmeticOverflow)
    } else if pre.user_token_account.amount < amount {
        Err(ErrorCode::InsufficientFunds)
    } else if vault.amount + amount > u64::MAX {
        Err(ErrorCode::ArithmeticOverflow)
    } else {
        Ok(Deposit {
            escrow: EscrowAccount {
                data: Some(Escrow { token_balance: (e.token_balance + amount) as u64, ..e }),
                ..pre.escrow
            },
            user_token_account: TokenAccount {
                amount: (pre.user_token_account.amount - amount) as u64,
                ..pre.user_token_account
            },
            vault_token_account: Some(TokenAccount { amount: (vault.amount + amount) as u64, ..vault }),
            ..pre
        })
    }
}

/// The accounts once the vault exists: unchanged where it does, else with an
/// empty vault for the mint under the escrow's authority, paid for by the
/// signer.
pub open spec fn with_vault(pre: Deposit) -> Result<Deposit, ErrorCode> {
    if pre.vault_token_account is Some {
        Ok(pre)
    } else if pre.signer.lamports < pre.vault_rent_minimum {
        Err(ErrorCode::InsufficientLamports)
    } else {
        Ok(Deposit {
            vault_token_account: Some(
                TokenAccount { mint: pre.token_mint, authority: pre.escrow.key, amount: 0 },
            ),
            signer: Wallet {
                lamports: (pre.signer.lamports - pre.vault_rent_minimum) as u64,
                ..pre.signer
            },
            ..pre
        })
    }
}

/// Why the vault cannot be used, if it exists and cannot: it must hold the
/// mint and answer to the escrow.
pub open spec fn vault_check(pre: Deposit) -> Option<ErrorCode> {
    match pre.vault_token_account {
        Some(v) => token_account_check(v, pre.token_mint@, pre.escrow.key@),
        None => None,
    }
}

/// Deposit in full: the accounts after it, or why it fails.
pub open spec fn deposit_outcome(pre: Deposit, program_id: Seq<u8>, amount: u64) -> Result<Deposit, ErrorCode> {
    if let Some(e) = escrow_check(pre.escrow, program_id) {
        Err(e)
    } else if let Some(e) = token_account_check(pre.user_token_account, pre.token_mint@, pre.signer.key@) {
        Err(e)
    } else if let Some(e) = vault_check(pre) {
        Err(e)
    } else {
        match with_vault(pre) {
            Err(e) => Err(e),
            Ok(mid) => deposit_effect(mid, amount),
        }
    }
}

impl Deposit {
    /// Makes the vault where it is absent.
    pub fn open_vault(&mut self) -> (r: Result<(), ErrorCode>)
        ensures
            match with_vault(*old(self)) {
                Ok(post) => r == Ok::<(), ErrorCode>(()) && *final(self) == post,
                Err(e) => r == Err::<(), ErrorCode>(e) && *final(self) == *old(self),
            },
    {
        if self.vault_token_account.is_some() {
            return Ok(());
        }
        if self.signer.lamports < self.vault_rent_minimum {
            return Err(ErrorCode::InsufficientLamports);
        }
        self.signer.lamports = self.signer.lamports - self.vault_rent_minimum;
        self.vault_token_account = Some(
            TokenAccount { mint: self.token_mint, authority: self.escrow.key, amount: 0 },
        );
        Ok(())
    }

    /// Adds `amount` to the ledger and moves `amount` tokens from the signer's
    /// token account to the vault.
    pub fn deposit(&mut self, amount: u64) -> (r: Result<(), ErrorCode>)
        requires
            old(self).escrow.data is Some,
            old(self).vault_token_account is Some,
        ensures
            match deposit_effect(*old(self), amount) {
                Ok(post) => r == Ok::<(), ErrorCode>(()) && *final(self) == post,
                Err(e) => r == Err::<(), ErrorCode>(e) && *final(self) == *old(self),
            },
    {
        let e = match &self.escrow.data {
            Some(d) => *d,
            None => {
                return Err(ErrorCode::AccountNotInitialized);
            },
        };
        let v = match &self.vault_token_account {
            Some(t) => *t,
            None => {
                return Err(ErrorCode::AccountNotInitialized);
            },
        };
        let balance = match e.token_balance.checked_add(amount) {
            Some(b) => b,
            None => {
                return Err(ErrorCode::ArithmeticOverflow);
            },
        };
        if self.user_token_account.amount < amount {
            return Err(ErrorCode::InsufficientFunds);
        }
        let vault = match v.amount.checked_add(amount) {
            Some(b) => b,
            None => {
                return Err(ErrorCode::ArithmeticOverflow);
            },
        };
        self.escrow.data = Some(Escrow { token_balance: balance, ..e });
        self.user_token_account.amount = self.user_token_account.amount - amount;
        self.vault_token_account = Some(TokenAccount { amount: vault, ..v });
        Ok(())
    }
}

} // verus!
