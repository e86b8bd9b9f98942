use crate::address::{is_canonical_tag, escrow_address};
use crate::error::ErrorCode;
use crate::state::{Escrow, EscrowAccount, Wallet};
use vstd::prelude::*;

verus! {

/// The accounts of Initialize, with the rent-exempt minimum of the escrow
/// record's 49 bytes as the runtime gives it.
#[derive(Clone, Copy, Debug)]
pub struct Initialize {
    pub escrow: EscrowAccount,
    pub signer: Wallet,
    pub rent_minimum: u64,
}

/// What the signer pays so that the escrow account is rent-exempt.
pub open spec fn rent_top_up(lamports: u64, rent_minimum: u64) -> int {
    if rent_minimum > lamports {
        rent_minimum - lamports
    } else {
        0
    }
}

/// Some tag from 1 to 255 derives an escrow address for `owner`.
pub open spec fn has_escrow_address(owner: Seq<u8>, program_id: Seq<u8>) -> bool {
    exists|b: u8| 1 <= b && (#[trigger] escrow_address(owner, b, program_id)) is Some
}

/// The tag that the derivation picks for `owner`.
pub open spec fn canonical_tag(owner: Seq<u8>, program_id: Seq<u8>) -> u8 {
    choose|t: u8| is_canonical_tag(owner, t, program_id)
}

/// Initialize in full: the accounts after it, or why it fails.
pub open spec fn initialize_outcome(pre: Initialize, program_id: Seq<u8>) -> Result<Initialize, ErrorCode> {
    let owner = pre.signer.key@;
    let tag = canonical_tag(owner, program_id);
    let top_up = rent_top_up(pre.escrow.lamports, pre.rent_minimum);
    if !has_escrow_address(owner, program_id) {
        Err(ErrorCode::NoViableBump)
    } else if escrow_address(owner, tag, program_id) != Some(pre.escrow.key@) {
        Err(ErrorCode::ConstraintSeeds)
    } else if pre.escrow.data is Some {
        Err(ErrorCode::AccountAlreadyInitialized)
    } else if pre.signer.lamports < top_up {
        Err(ErrorCode::InsufficientLamports)
    } else {
        Ok(Initialize {
            escrow: EscrowAccount {
                lamports: (pre.escrow.lamports + top_up) as u64,
                data: Some(Escrow { owner: pre.signer.key, token_balance: 0, derivation_tag: tag }),
                ..pre.escrow
            },
            signer: Wallet { lamports: (pre.signer.lamports - top_up) as u64, ..pre.signer },
            ..pre
        })
    }
}

/// Two tags that both satisfy `is_canonical_tag` for one owner are one tag.
pub proof fn lemma_canonical_tag_unique(owner: Seq<u8>, t1: u8, t2: u8, program_id: Seq<u8>)
    requires
        is_canonical_tag(owner, t1, program_id),
        is_canonical_tag(owner, t2, program_id),
    ensures
        t1 == t2,
{
    if t1 < t2 {
        assert(escrow_address(owner, t2, program_id) is None);
    } else if t2 < t1 {
        assert(escrow_address(owner, t1, program_id) is None);
    }
}

impl Initialize {
    /// Writes the new record: the signer owns it, the ledger is empty, and
    /// `bump` is its derivation tag.
    pub fn initialize(&mut self, bump: u8) -> (r: Result<(), ErrorCode>)
        ensures
            r == Ok::<(), ErrorCode>(()),
            *final(self) == (Initialize {
                escrow: EscrowAccount {
                    data: Some(Escrow { owner: old(self).signer.key, token_balance: 0, derivation_tag: bump }),
                    ..old(self).escrow
                },
                ..*old(self)
            }),
    {
        self.escrow.data = Some(Escrow { owner: self.signer.key, token_balance: 0, derivation_tag: bump });
        Ok(())
    }
}

} // verus!
