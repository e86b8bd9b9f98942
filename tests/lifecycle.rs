use swap_synto::address::{derive_escrow, is_escrow_address, Address};
use swap_synto::deposit::Deposit;
use swap_synto::error::ErrorCode;
use swap_synto::initialize::Initialize;
use swap_synto::state::{Escrow, EscrowAccount, TokenAccount, Wallet};
use swap_synto::swap::{token_payout, Swap};
use swap_synto::withdraw::Withdraw;
use swap_synto::{deposit, initialize, swap, withdraw};

const RENT_49: u64 = 1_231_920;
const VAULT_RENT: u64 = 2_039_280;
const SOL: u64 = 1_000_000_000;

fn addr(b: u8) -> Address {
    Address { bytes: [b; 32] }
}

fn program() -> Address {
    addr(7)
}

fn alice() -> Address {
    addr(1)
}

fn bob() -> Address {
    addr(2)
}

fn eve() -> Address {
    addr(5)
}

fn mint() -> Address {
    addr(9)
}

fn escrow_key(owner: Address) -> Address {
    derive_escrow(&owner, &program()).unwrap().0
}

fn fresh_init(owner: Address) -> Initialize {
    Initialize {
        escrow: EscrowAccount { key: escrow_key(owner), lamports: 0, data: None },
        signer: Wallet { key: owner, lamports: 10 * SOL },
        rent_minimum: RENT_49,
    }
}

fn initialized(owner: Address) -> (EscrowAccount, Wallet) {
    let mut acc = fresh_init(owner);
    initialize(&mut acc, &program()).unwrap();
    (acc.escrow, acc.signer)
}

fn deposit_accounts(escrow: EscrowAccount, signer: Wallet, held: u64, vault: Option<TokenAccount>) -> Deposit {
    Deposit {
        escrow,
        user_token_account: TokenAccount { mint: mint(), authority: signer.key, amount: held },
        vault_token_account: vault,
        signer,
        token_mint: mint(),
        vault_rent_minimum: VAULT_RENT,
    }
}

fn swap_accounts(escrow: EscrowAccount, vault: TokenAccount, taker: Wallet) -> Swap {
    Swap {
        escrow,
        user_token_account: TokenAccount { mint: mint(), authority: taker.key, amount: 0 },
        vault_token_account: vault,
        signer: taker,
        token_mint: mint(),
    }
}

fn funded(owner: Address, amount: u64) -> (EscrowAccount, TokenAccount, Wallet) {
    let (escrow, signer) = initialized(owner);
    let mut d = deposit_accounts(escrow, signer, amount, None);
    deposit(&mut d, &program(), amount).unwrap();
    (d.escrow, d.vault_token_account.unwrap(), d.signer)
}

fn record(e: &EscrowAccount) -> Escrow {
    e.data.unwrap()
}

#[test]
fn full_lifecycle() {
    let mut init = fresh_init(alice());
    assert_eq!(initialize(&mut init, &program()), Ok(()));
    assert_eq!(init.escrow.lamports, RENT_49);
    assert_eq!(init.signer.lamports, 10 * SOL - RENT_49);
    let rec = record(&init.escrow);
    assert_eq!(rec.owner, alice());
    assert_eq!(rec.token_balance, 0);

    let mut d = deposit_accounts(init.escrow, init.signer, 5_000_000, None);
    assert_eq!(deposit(&mut d, &program(), 1_000_000), Ok(()));
    assert_eq!(record(&d.escrow).token_balance, 1_000_000);
    assert_eq!(d.vault_token_account.unwrap().amount, 1_000_000);
    assert_eq!(d.user_token_account.amount, 4_000_000);

    let taker = Wallet { key: bob(), lamports: 5 * SOL };
    let mut s = swap_accounts(d.escrow, d.vault_token_account.unwrap(), taker);
    assert_eq!(swap(&mut s, &program(), 1_000_000), Ok(130_000));
    assert_eq!(record(&s.escrow).token_balance, 870_000);
    assert_eq!(s.vault_token_account.amount, 870_000);
    assert_eq!(s.user_token_account.amount, 130_000);
    assert_eq!(s.escrow.lamports, RENT_49 + 1_000_000);
    assert_eq!(s.signer.lamports, 5 * SOL - 1_000_000);

    let mut w = Withdraw { escrow: s.escrow, signer: d.signer, rent_minimum: RENT_49 };
    assert_eq!(withdraw(&mut w, &program()), Ok(()));
    assert_eq!(w.escrow.lamports, RENT_49);
    assert_eq!(w.signer.lamports, d.signer.lamports + 1_000_000);
    assert_eq!(record(&w.escrow).token_balance, 870_000);
}

#[test]
fn swap_rounds_down_to_nothing() {
    let (escrow, vault, _) = funded(alice(), 1_000);
    let mut s = swap_accounts(escrow, vault, Wallet { key: bob(), lamports: SOL });
    assert_eq!(swap(&mut s, &program(), 7), Ok(0));
    assert_eq!(record(&s.escrow).token_balance, 1_000);
    assert_eq!(s.vault_token_account.amount, 1_000);
    assert_eq!(s.escrow.lamports, escrow.lamports + 7);
    assert_eq!(s.signer.lamports, SOL - 7);
}

#[test]
fn oversell_fails_without_change() {
    let (escrow, vault, _) = funded(alice(), 100);
    let mut s = swap_accounts(escrow, vault, Wallet { key: bob(), lamports: 2 * SOL });
    assert_eq!(swap(&mut s, &program(), SOL), Err(ErrorCode::ArithmeticUnderflow));
    assert_eq!(record(&s.escrow).token_balance, 100);
    assert_eq!(s.vault_token_account.amount, 100);
    assert_eq!(s.escrow.lamports, escrow.lamports);
    assert_eq!(s.signer.lamports, 2 * SOL);
    assert_eq!(s.user_token_account.amount, 0);
}

#[test]
fn wrong_withdrawer_refused() {
    let (escrow, _, _) = funded(alice(), 100);
    let mut rich = escrow;
    rich.lamports += 3_000;
    let mut w = Withdraw { escrow: rich, signer: Wallet { key: eve(), lamports: 10 }, rent_minimum: RENT_49 };
    assert_eq!(withdraw(&mut w, &program()), Err(ErrorCode::NotTheOwner));
    assert_eq!(w.escrow.lamports, rich.lamports);
    assert_eq!(w.signer.lamports, 10);
}

#[test]
fn double_initialize_fails() {
    let mut init = fresh_init(alice());
    assert_eq!(initialize(&mut init, &program()), Ok(()));
    let first = record(&init.escrow);
    let lamports = init.escrow.lamports;
    assert_eq!(initialize(&mut init, &program()), Err(ErrorCode::AccountAlreadyInitialized));
    let again = record(&init.escrow);
    assert_eq!(again.owner, first.owner);
    assert_eq!(again.token_balance, first.token_balance);
    assert_eq!(again.derivation_tag, first.derivation_tag);
    assert_eq!(init.escrow.lamports, lamports);
}

#[test]
fn donation_by_non_owner() {
    let (escrow, vault, _) = funded(alice(), 1_000);
    let donor = Wallet { key: bob(), lamports: SOL };
    let mut d = deposit_accounts(escrow, donor, 800, Some(vault));
    assert_eq!(deposit(&mut d, &program(), 500), Ok(()));
    assert_eq!(record(&d.escrow).token_balance, 1_500);
    assert_eq!(d.vault_token_account.unwrap().amount, 1_500);
    assert_eq!(d.user_token_account.amount, 300);
    assert_eq!(record(&d.escrow).owner, alice());
    assert_eq!(d.signer.lamports, SOL);
}

#[test]
fn derivation_is_deterministic_and_checked() {
    let (key, tag) = derive_escrow(&alice(), &program()).unwrap();
    let (key2, tag2) = derive_escrow(&alice(), &program()).unwrap();
    assert_eq!(key, key2);
    assert_eq!(tag, tag2);
    assert!(tag >= 1);
    assert_ne!(key, alice());
    assert_ne!(key, program());
    assert!(is_escrow_address(&key, &alice(), tag, &program()));
    assert!(!is_escrow_address(&key, &bob(), tag, &program()));
    assert!(!is_escrow_address(&alice(), &alice(), tag, &program()));
    assert_ne!(escrow_key(alice()), escrow_key(bob()));
    let (init_escrow, _) = initialized(alice());
    assert_eq!(record(&init_escrow).derivation_tag, tag);
    assert_eq!(init_escrow.key, key);
}

#[test]
fn payout_formula() {
    assert_eq!(token_payout(0), Ok(0));
    assert_eq!(token_payout(7), Ok(0));
    assert_eq!(token_payout(8), Ok(1));
    assert_eq!(token_payout(1_000_000), Ok(130_000));
    assert_eq!(token_payout(SOL), Ok(130_000_000));
    assert_eq!(token_payout(141_898_031_336), Ok(18_446_744_073));
    assert_eq!(token_payout(141_898_031_337), Err(ErrorCode::ArithmeticOverflow));
    assert_eq!(token_payout(u64::MAX), Err(ErrorCode::ArithmeticOverflow));
}

#[test]
fn swap_numerator_overflow() {
    let (escrow, vault, _) = funded(alice(), 100);
    let mut s = swap_accounts(escrow, vault, Wallet { key: bob(), lamports: u64::MAX / 2 });
    assert_eq!(swap(&mut s, &program(), 141_898_031_337), Err(ErrorCode::ArithmeticOverflow));
    assert_eq!(record(&s.escrow).token_balance, 100);
    assert_eq!(s.signer.lamports, u64::MAX / 2);
}

#[test]
fn swap_payer_too_poor() {
    let (escrow, vault, _) = funded(alice(), 1_000_000);
    let mut s = swap_accounts(escrow, vault, Wallet { key: bob(), lamports: 99 });
    assert_eq!(swap(&mut s, &program(), 100), Err(ErrorCode::InsufficientLamports));
    assert_eq!(s.escrow.lamports, escrow.lamports);
}

#[test]
fn swap_vault_short_of_ledger() {
    let (escrow, mut vault, _) = funded(alice(), 1_000_000);
    vault.amount = 10;
    let mut s = swap_accounts(escrow, vault, Wallet { key: bob(), lamports: SOL });
    assert_eq!(swap(&mut s, &program(), 1_000_000), Err(ErrorCode::InsufficientFunds));
    assert_eq!(record(&s.escrow).token_balance, 1_000_000);
    assert_eq!(s.vault_token_account.amount, 10);
}

#[test]
fn swap_wrong_mint_and_authority() {
    let (escrow, vault, _) = funded(alice(), 1_000);
    let mut s = swap_accounts(escrow, vault, Wallet { key: bob(), lamports: SOL });
    s.user_token_account.mint = addr(8);
    assert_eq!(swap(&mut s, &program(), 100), Err(ErrorCode::ConstraintTokenMint));
    let mut s = swap_accounts(escrow, vault, Wallet { key: bob(), lamports: SOL });
    s.vault_token_account.authority = alice();
    assert_eq!(swap(&mut s, &program(), 100), Err(ErrorCode::ConstraintTokenOwner));
}

#[test]
fn escrow_at_wrong_address_refused() {
    let (escrow, vault, owner) = funded(alice(), 1_000);
    let mut moved = escrow;
    moved.key = addr(3);
    let mut s = swap_accounts(moved, vault, Wallet { key: bob(), lamports: SOL });
    assert_eq!(swap(&mut s, &program(), 100), Err(ErrorCode::ConstraintSeeds));
    let mut w = Withdraw { escrow: moved, signer: owner, rent_minimum: RENT_49 };
    assert_eq!(withdraw(&mut w, &program()), Err(ErrorCode::ConstraintSeeds));
    let mut d = deposit_accounts(moved, owner, 10, Some(vault));
    assert_eq!(deposit(&mut d, &program(), 10), Err(ErrorCode::ConstraintSeeds));
    let mut init = fresh_init(bob());
    init.escrow.key = escrow_key(alice());
    assert_eq!(initialize(&mut init, &program()), Err(ErrorCode::ConstraintSeeds));
}

#[test]
fn uninitialized_escrow_refused() {
    let empty = EscrowAccount { key: escrow_key(alice()), lamports: 0, data: None };
    let signer = Wallet { key: alice(), lamports: SOL };
    let mut d = deposit_accounts(empty, signer, 10, None);
    assert_eq!(deposit(&mut d, &program(), 10), Err(ErrorCode::AccountNotInitialized));
    let mut w = Withdraw { escrow: empty, signer, rent_minimum: RENT_49 };
    assert_eq!(withdraw(&mut w, &program()), Err(ErrorCode::AccountNotInitialized));
}

#[test]
fn initialize_needs_rent() {
    let mut init = fresh_init(alice());
    init.signer.lamports = RENT_49 - 1;
    assert_eq!(initialize(&mut init, &program()), Err(ErrorCode::InsufficientLamports));
    assert!(init.escrow.data.is_none());
    let mut init = fresh_init(alice());
    init.escrow.lamports = 1_000;
    init.signer.lamports = RENT_49 - 1_000;
    assert_eq!(initialize(&mut init, &program()), Ok(()));
    assert_eq!(init.escrow.lamports, RENT_49);
    assert_eq!(init.signer.lamports, 0);
}

#[test]
fn deposit_errors_leave_state() {
    let (escrow, signer) = initialized(alice());
    let mut d = deposit_accounts(escrow, signer, 50, None);
    assert_eq!(deposit(&mut d, &program(), 51), Err(ErrorCode::InsufficientFunds));
    assert!(d.vault_token_account.is_none());
    assert_eq!(d.signer.lamports, signer.lamports);
    assert_eq!(record(&d.escrow).token_balance, 0);

    let poor = Wallet { key: alice(), lamports: VAULT_RENT - 1 };
    let mut d = deposit_accounts(escrow, poor, 50, None);
    assert_eq!(deposit(&mut d, &program(), 10), Err(ErrorCode::InsufficientLamports));

    let mut d = deposit_accounts(escrow, signer, 50, None);
    d.user_token_account.authority = bob();
    assert_eq!(deposit(&mut d, &program(), 10), Err(ErrorCode::ConstraintTokenOwner));

    let mut d = deposit_accounts(escrow, signer, 50, None);
    d.user_token_account.mint = addr(8);
    assert_eq!(deposit(&mut d, &program(), 10), Err(ErrorCode::ConstraintTokenMint));
}

#[test]
fn deposit_counter_overflow() {
    let (escrow, vault, signer) = funded(alice(), 10);
    let mut d = deposit_accounts(escrow, signer, u64::MAX, Some(vault));
    assert_eq!(deposit(&mut d, &program(), u64::MAX - 9), Err(ErrorCode::ArithmeticOverflow));
    assert_eq!(record(&d.escrow).token_balance, 10);
    assert_eq!(d.user_token_account.amount, u64::MAX);
    assert_eq!(deposit(&mut d, &program(), u64::MAX - 10), Ok(()));
    assert_eq!(record(&d.escrow).token_balance, u64::MAX);
}

#[test]
fn first_deposit_opens_vault() {
    let (escrow, signer) = initialized(alice());
    let mut d = deposit_accounts(escrow, signer, 50, None);
    assert_eq!(deposit(&mut d, &program(), 0), Ok(()));
    let v = d.vault_token_account.unwrap();
    assert_eq!(v.amount, 0);
    assert_eq!(v.authority, escrow.key);
    assert_eq!(v.mint, mint());
    assert_eq!(d.signer.lamports, signer.lamports - VAULT_RENT);
}

#[test]
fn withdraw_twice_is_noop() {
    let (mut escrow, _, owner) = funded(alice(), 10);
    escrow.lamports += 5_000;
    let mut w = Withdraw { escrow, signer: owner, rent_minimum: RENT_49 };
    assert_eq!(withdraw(&mut w, &program()), Ok(()));
    assert_eq!(w.escrow.lamports, RENT_49);
    assert_eq!(w.signer.lamports, owner.lamports + 5_000);
    assert_eq!(withdraw(&mut w, &program()), Ok(()));
    assert_eq!(w.escrow.lamports, RENT_49);
    assert_eq!(w.signer.lamports, owner.lamports + 5_000);
    assert_eq!(record(&w.escrow).token_balance, 10);
}

#[test]
fn withdraw_below_rent_pays_nothing() {
    let (mut escrow, _, owner) = funded(alice(), 10);
    escrow.lamports = RENT_49 - 5;
    let mut w = Withdraw { escrow, signer: owner, rent_minimum: RENT_49 };
    assert_eq!(withdraw(&mut w, &program()), Ok(()));
    assert_eq!(w.escrow.lamports, RENT_49 - 5);
    assert_eq!(w.signer.lamports, owner.lamports);
}

#[test]
fn ledger_tracks_vault_over_operations() {
    let (escrow, vault, owner) = funded(alice(), 2_000_000);
    let mut s = swap_accounts(escrow, vault, Wallet { key: bob(), lamports: SOL });
    swap(&mut s, &program(), 3_333_333).unwrap();
    assert_eq!(record(&s.escrow).token_balance, s.vault_token_account.amount);
    assert_eq!(s.vault_token_account.amount, 2_000_000 - 433_333);
    let mut d = deposit_accounts(s.escrow, owner, 1_000, Some(s.vault_token_account));
    deposit(&mut d, &program(), 1_000).unwrap();
    assert_eq!(record(&d.escrow).token_balance, d.vault_token_account.unwrap().amount);
    assert_eq!(record(&d.escrow).owner, alice());
}
