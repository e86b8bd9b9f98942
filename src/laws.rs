use crate::deposit::{deposit_outcome, Deposit};
use crate::error::ErrorCode;
use crate::initialize::{initialize_outcome, Initialize};
use crate::state::escrow_check;
use crate::swap::{payout, swap_outcome, Swap};
use crate::withdraw::{withdraw_outcome, withdrawable, Withdraw};
use vstd::prelude::*;

verus! {

/// The ledger agrees with the vault before a Deposit: the vault holds what the
/// ledger records, or is absent while the ledger is empty.
pub open spec fn deposit_agrees(d: Deposit) -> bool {
    match d.vault_token_account {
        Some(v) => v.amount == d.escrow.data->0.token_balance,
        None => d.escrow.data->0.token_balance == 0,
    }
}

/// Initialize cannot succeed twice: once it has made an owner's record, a
/// second Initialize on the accounts it left fails with
/// `AccountAlreadyInitialized`.
pub proof fn lemma_initialize_once(pre: Initialize, program_id: Seq<u8>)
    requires
        initialize_outcome(pre, program_id) is Ok,
    ensures
        initialize_outcome(initialize_outcome(pre, program_id)->Ok_0, program_id)
            == Err::<Initialize, ErrorCode>(ErrorCode::AccountAlreadyInitialized),
{
}

/// An owner has one escrow: two successful Initializes signed by the same
/// owner write their records at the same address, under the same tag.
pub proof fn lemma_one_escrow_per_owner(a: Initialize, b: Initialize, program_id: Seq<u8>)
    requires
        a.signer.key@ == b.signer.key@,
        initialize_outcome(a, program_id) is Ok,
        initialize_outcome(b, program_id) is Ok,
    ensures
        a.escrow.key@ == b.escrow.key@,
        initialize_outcome(a, program_id)->Ok_0.escrow.data->0.derivation_tag
            == initialize_outcome(b, program_id)->Ok_0.escrow.data->0.derivation_tag,
{
}

/// Deposit keeps the ledger equal to the vault's balance.
pub proof fn lemma_deposit_keeps_agreement(pre: Deposit, program_id: Seq<u8>, amount: u64)
    requires
        pre.escrow.data is Some,
        deposit_agrees(pre),
        deposit_outcome(pre, program_id, amount) is Ok,
    ensures
        ({
            let post = deposit_outcome(pre, program_id, amount)->Ok_0;
            post.vault_token_account is Some
                && post.vault_token_account->0.amount == post.escrow.data->0.token_balance
        }),
{
}

/// Swap keeps the ledger equal to the vault's balance.
pub proof fn lemma_swap_keeps_agreement(pre: Swap, program_id: Seq<u8>, payer_amount: u64)
    requires
        pre.escrow.data is Some,
        pre.vault_token_account.amount == pre.escrow.data->0.token_balance,
        swap_outcome(pre, program_id, payer_amount) is Ok,
    ensures
        ({
            let post = swap_outcome(pre, program_id, payer_amount)->Ok_0.0;
            post.vault_token_account.amount == post.escrow.data->0.token_balance
        }),
{
}

/// Deposit, Swap and Withdraw leave the escrow's owner and tag as they were.
pub proof fn lemma_owner_fixed(
    d: Deposit,
    amount: u64,
    s: Swap,
    payer_amount: u64,
    w: Withdraw,
    program_id: Seq<u8>,
)
    ensures
        deposit_outcome(d, program_id, amount) is Ok ==> ({
            let post = deposit_outcome(d, program_id, amount)->Ok_0.escrow.data->0;
            post.owner == d.escrow.data->0.owner && post.derivation_tag == d.escrow.data->0.derivation_tag
        }),
        swap_outcome(s, program_id, payer_amount) is Ok ==> ({
            let post = swap_outcome(s, program_id, payer_amount)->Ok_0.0.escrow.data->0;
            post.owner == s.escrow.data->0.owner && post.derivation_tag == s.escrow.data->0.derivation_tag
        }),
        withdraw_outcome(w, program_id) is Ok ==> withdraw_outcome(w, program_id)->Ok_0.escrow.data
            == w.escrow.data,
{
}

/// On a sound escrow account, Withdraw succeeds exactly when the signer is the
/// owner, and otherwise fails with `NotTheOwner`, where paying the signer
/// cannot overflow.
pub proof fn lemma_withdraw_authorization(pre: Withdraw, program_id: Seq<u8>)
    requires
        escrow_check(pre.escrow, program_id) is None,
        pre.signer.lamports + withdrawable(pre.escrow.lamports, pre.rent_minimum) <= u64::MAX,
    ensures
        withdraw_outcome(pre, program_id) is Ok <==> pre.signer.key@ == pre.escrow.data->0.owner@,
        pre.signer.key@ != pre.escrow.data->0.owner@ ==> withdraw_outcome(pre, program_id)
            == Err::<Withdraw, ErrorCode>(ErrorCode::NotTheOwner),
{
}

/// Withdraw leaves the escrow the smaller of what it held and the rent-exempt
/// minimum, so a rent-exempt escrow stays rent-exempt.
pub proof fn lemma_withdraw_keeps_rent(pre: Withdraw, program_id: Seq<u8>)
    requires
        withdraw_outcome(pre, program_id) is Ok,
    ensures
        ({
            let post = withdraw_outcome(pre, program_id)->Ok_0;
            &&& post.escrow.lamports == if pre.escrow.lamports < pre.rent_minimum {
                pre.escrow.lamports
            } else {
                pre.rent_minimum
            }
            &&& pre.escrow.lamports >= pre.rent_minimum ==> post.escrow.lamports >= pre.rent_minimum
        }),
{
}

/// Initialize leaves the escrow account rent-exempt.
pub proof fn lemma_initialize_funds_rent(pre: Initialize, program_id: Seq<u8>)
    requires
        initialize_outcome(pre, program_id) is Ok,
    ensures
        initialize_outcome(pre, program_id)->Ok_0.escrow.lamports >= pre.rent_minimum,
{
}

/// A successful Swap pays out `payer_amount * 130_000_000 / 1_000_000_000`
/// tokens, rounded down, and takes exactly that off the ledger.
pub proof fn lemma_swap_rate(pre: Swap, program_id: Seq<u8>, payer_amount: u64)
    requires
        swap_outcome(pre, program_id, payer_amount) is Ok,
    ensures
        ({
            let (post, out) = swap_outcome(pre, program_id, payer_amount)->Ok_0;
            &&& out as int == payout(payer_amount)
            &&& out as int == (payer_amount as int * 130_000_000) / 1_000_000_000
            &&& post.escrow.data->0.token_balance == pre.escrow.data->0.token_balance - out
        }),
{
}

} // verus!
