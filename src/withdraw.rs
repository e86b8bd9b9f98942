use crate::error::ErrorCode;
use crate::state::{escrow_check, EscrowAccount, Wallet};
use vstd::prelude::*;

verus! {

/// The accounts of Withdraw, with the rent-exempt minimum of the escrow
/// record's 49 bytes as the runtime gives it.
#[derive(Clone, Copy, Debug)]
pub struct Withdraw {
    pub escrow: EscrowAccount,
    pub signer: Wallet,
    pub rent_minimum: u64,
}

/// What Withdraw pays out: all the escrow holds above the rent-exempt minimum.
pub open spec fn withdrawable(lamports: u64, rent_minimum: u64) -> int {
    if lamports > rent_minimum {
        lamports - rent_minimum
    } else {
        0
    }
}

/// Withdraw on accounts that passed their checks: the accounts after it, or
/// why it fails.
pub open spec fn withdraw_effect(pre: Withdraw) -> Result<Withdraw, ErrorCode> {
    let amount = withdrawable(pre.escrow.lamports, pre.rent_minimum);
    if pre.escrow.data->0.owner@ != pre.signer.key@ {
        Err(ErrorCode::NotTheOwner)
    } else if pre.signer.lamports + amount > u64::MAX {
        Err(ErrorCode::ArithmeticOverflow)
    } else {
        Ok(Withdraw {
            escrow: EscrowAccount { lamports: (pre.escrow.lamports - amount) as u64, ..pre.escrow },
            signer: Wallet { lamports: (pre.signer.lamports + amount) as u64, ..pre.signer },
            ..pre
        })
    }
}

/// Withdraw in full: the accounts after it, or why it fails.
pub open spec fn withdraw_outcome(pre: Withdraw, program_id: Seq<u8>) -> Result<Withdraw, ErrorCode> {
    if let Some(e) = escrow_check(pre.escrow, program_id) {
        Err(e)
    } else {
        withdraw_effect(pre)
    }
}

impl Withdraw {
    /// Moves all the escrow holds above the rent-exempt minimum to the signer,
    /// who must be the owner.
    pub fn withdraw(&mut self) -> (r: Result<(), ErrorCode>)
        requires
            old(self).escrow.data is Some,
        ensures
            match withdraw_effect(*old(self)) {
                Ok(post) => r == Ok::<(), ErrorCode>(()) && *final(self) == post,
                Err(e) => r == Err::<(), ErrorCode>(e) && *final(self) == *old(self),
            },
    {
        let lamports = self.escrow.lamports;
        let owner = match &self.escrow.data {
            Some(d) => d.owner,
            None => {
                return Err(ErrorCode::AccountNotInitialized);
            },
        };
        if !(owner == self.signer.key) {
            return Err(ErrorCode::NotTheOwner);
        }
        let amount = lamports.saturating_sub(self.rent_minimum);
        let paid = match self.signer.lamports.checked_add(amount) {
            Some(v) => v,
            None => {
                return Err(ErrorCode::ArithmeticOverflow);
            },
        };
        self.escrow.lamports = lamports - amount;
        self.signer.lamports = paid;
        Ok(())
    }
}

} // verus!
