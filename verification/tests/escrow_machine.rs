//! End-to-end scenarios against the escrow state machine.

use anchor_escrow::cancel::Cancel;
use anchor_escrow::exchange::Exchange;
use anchor_escrow::initialize::Initialize;
use anchor_escrow::ledger::EscrowError;
use anchor_escrow::ledger::Owner;
use anchor_escrow::ledger::TokenAccount;
use anchor_escrow::machine::cancel;
use anchor_escrow::machine::exchange;
use anchor_escrow::machine::initialize;
use anchor_escrow::machine::EscrowMachine;

const ALICE: u64 = 1;
const BOB: u64 = 2;
const MINT_A: u64 = 100;
const MINT_B: u64 = 200;

fn user_account(owner: u64, mint: u64, amount: u64) -> TokenAccount {
    TokenAccount { mint, owner: Owner::User(owner), amount }
}

fn alice_initialize_ctx(amount: u64) -> Initialize {
    Initialize {
        initializer: ALICE,
        mint_a: MINT_A,
        mint_b: MINT_B,
        initializer_ata_a: user_account(ALICE, MINT_A, amount),
    }
}

fn bob_exchange_ctx(b_balance: u64) -> Exchange {
    Exchange {
        taker: BOB,
        initializer: ALICE,
        mint_a: MINT_A,
        mint_b: MINT_B,
        taker_ata_a: user_account(BOB, MINT_A, 0),
        taker_ata_b: user_account(BOB, MINT_B, b_balance),
        initializer_ata_b: user_account(ALICE, MINT_B, 0),
    }
}

fn alice_cancel_ctx(a_balance: u64) -> Cancel {
    Cancel {
        initializer: ALICE,
        mint_a: MINT_A,
        initializer_ata_a: user_account(ALICE, MINT_A, a_balance),
    }
}

#[test]
fn exchange_100_a_for_50_b_settles_in_full() {
    let mut m = EscrowMachine::new();
    let mut ictx = alice_initialize_ctx(100);
    assert_eq!(initialize(&mut m, &mut ictx, 7, 100, 50), Ok(()));
    assert_eq!(ictx.initializer_ata_a.amount, 0);
    assert!(m.is_active(ALICE, 7));
    assert_eq!(m.vault_balance(ALICE, 7), Some(100));

    let mut ectx = bob_exchange_ctx(50);
    assert_eq!(exchange(&mut m, &mut ectx, 7), Ok(()));
    // Taker ends with +100 of asset A, initializer with +50 of asset B.
    assert_eq!(ectx.taker_ata_a.amount, 100);
    assert_eq!(ectx.taker_ata_b.amount, 0);
    assert_eq!(ectx.initializer_ata_b.amount, 50);
    // Vault and record cease to exist.
    assert!(!m.is_active(ALICE, 7));
    assert_eq!(m.vault_balance(ALICE, 7), None);
    assert_eq!(m.active_count(), 0);
}

#[test]
fn exchange_with_taker_short_by_one_unit_changes_nothing() {
    let mut m = EscrowMachine::new();
    let mut ictx = alice_initialize_ctx(100);
    assert_eq!(initialize(&mut m, &mut ictx, 7, 100, 50), Ok(()));

    let mut ectx = bob_exchange_ctx(49);
    assert_eq!(exchange(&mut m, &mut ectx, 7), Err(EscrowError::InsufficientBalance));
    // All balances unchanged, record remains active.
    assert_eq!(ectx.taker_ata_a.amount, 0);
    assert_eq!(ectx.taker_ata_b.amount, 49);
    assert_eq!(ectx.initializer_ata_b.amount, 0);
    assert!(m.is_active(ALICE, 7));
    assert_eq!(m.vault_balance(ALICE, 7), Some(100));
}

#[test]
fn cancel_restores_pre_lock_balance_and_destroys_record() {
    let mut m = EscrowMachine::new();
    let mut ictx = alice_initialize_ctx(10);
    assert_eq!(initialize(&mut m, &mut ictx, 9, 10, 5), Ok(()));
    assert_eq!(ictx.initializer_ata_a.amount, 0);

    let mut cctx = alice_cancel_ctx(ictx.initializer_ata_a.amount);
    assert_eq!(cancel(&mut m, &mut cctx, ALICE, 9), Ok(()));
    // Balance returns to its pre-lock value; vault and record destroyed.
    assert_eq!(cctx.initializer_ata_a.amount, 10);
    assert!(!m.is_active(ALICE, 9));
    assert_eq!(m.active_count(), 0);

    // A subsequent exchange attempt against that seed fails.
    let mut ectx = bob_exchange_ctx(5);
    assert_eq!(exchange(&mut m, &mut ectx, 9), Err(EscrowError::NotActive));
    assert_eq!(ectx.taker_ata_b.amount, 5);
}

#[test]
fn settled_record_refuses_cancel_and_exchange() {
    let mut m = EscrowMachine::new();
    let mut ictx = alice_initialize_ctx(100);
    assert_eq!(initialize(&mut m, &mut ictx, 3, 100, 50), Ok(()));
    let mut ectx = bob_exchange_ctx(50);
    assert_eq!(exchange(&mut m, &mut ectx, 3), Ok(()));

    // Once exchange succeeded, both settlements fail and no funds move.
    let mut cctx = alice_cancel_ctx(7);
    assert_eq!(cancel(&mut m, &mut cctx, ALICE, 3), Err(EscrowError::NotActive));
    assert_eq!(cctx.initializer_ata_a.amount, 7);
    let mut ectx2 = bob_exchange_ctx(50);
    assert_eq!(exchange(&mut m, &mut ectx2, 3), Err(EscrowError::NotActive));
    assert_eq!(ectx2.taker_ata_b.amount, 50);
}

#[test]
fn cancelled_record_refuses_a_second_cancel() {
    let mut m = EscrowMachine::new();
    let mut ictx = alice_initialize_ctx(10);
    assert_eq!(initialize(&mut m, &mut ictx, 4, 10, 5), Ok(()));
    let mut cctx = alice_cancel_ctx(0);
    assert_eq!(cancel(&mut m, &mut cctx, ALICE, 4), Ok(()));
    let mut cctx2 = alice_cancel_ctx(cctx.initializer_ata_a.amount);
    assert_eq!(cancel(&mut m, &mut cctx2, ALICE, 4), Err(EscrowError::NotActive));
    assert_eq!(cctx2.initializer_ata_a.amount, 10);
}

#[test]
fn cancel_by_other_identity_is_unauthorized_and_moves_nothing() {
    let mut m = EscrowMachine::new();
    let mut ictx = alice_initialize_ctx(10);
    assert_eq!(initialize(&mut m, &mut ictx, 5, 10, 5), Ok(()));

    let mut cctx = alice_cancel_ctx(0);
    assert_eq!(cancel(&mut m, &mut cctx, BOB, 5), Err(EscrowError::Unauthorized));
    assert_eq!(cctx.initializer_ata_a.amount, 0);
    assert_eq!(m.vault_balance(ALICE, 5), Some(10));
}

#[test]
fn duplicate_initialize_fails_without_second_vault() {
    let mut m = EscrowMachine::new();
    let mut ictx = alice_initialize_ctx(100);
    assert_eq!(initialize(&mut m, &mut ictx, 7, 60, 30), Ok(()));
    assert_eq!(m.active_count(), 1);

    let mut ictx2 = alice_initialize_ctx(40);
    assert_eq!(initialize(&mut m, &mut ictx2, 7, 40, 20), Err(EscrowError::DuplicateRecord));
    assert_eq!(ictx2.initializer_ata_a.amount, 40);
    assert_eq!(m.active_count(), 1);
    assert_eq!(m.vault_balance(ALICE, 7), Some(60));
}

#[test]
fn same_seed_under_different_initializers_names_different_records() {
    let mut m = EscrowMachine::new();
    let mut a = alice_initialize_ctx(10);
    assert_eq!(initialize(&mut m, &mut a, 1, 10, 5), Ok(()));
    let mut b = Initialize {
        initializer: BOB,
        mint_a: MINT_A,
        mint_b: MINT_B,
        initializer_ata_a: user_account(BOB, MINT_A, 20),
    };
    assert_eq!(initialize(&mut m, &mut b, 1, 20, 6), Ok(()));
    assert_eq!(m.active_count(), 2);
    assert_eq!(m.vault_balance(ALICE, 1), Some(10));
    assert_eq!(m.vault_balance(BOB, 1), Some(20));
}

#[test]
fn settling_one_record_leaves_the_other_untouched() {
    let mut m = EscrowMachine::new();
    let mut a = alice_initialize_ctx(10);
    assert_eq!(initialize(&mut m, &mut a, 1, 10, 5), Ok(()));
    let mut b = Initialize {
        initializer: BOB,
        mint_a: MINT_A,
        mint_b: MINT_B,
        initializer_ata_a: user_account(BOB, MINT_A, 20),
    };
    assert_eq!(initialize(&mut m, &mut b, 1, 20, 6), Ok(()));

    let mut cctx = alice_cancel_ctx(0);
    assert_eq!(cancel(&mut m, &mut cctx, ALICE, 1), Ok(()));
    assert!(!m.is_active(ALICE, 1));
    assert!(m.is_active(BOB, 1));
    assert_eq!(m.vault_balance(BOB, 1), Some(20));
    assert_eq!(m.active_count(), 1);
}

#[test]
fn initialize_rejects_zero_amounts() {
    let mut m = EscrowMachine::new();
    let mut ictx = alice_initialize_ctx(100);
    assert_eq!(initialize(&mut m, &mut ictx, 7, 0, 50), Err(EscrowError::InvalidAmount));
    assert_eq!(initialize(&mut m, &mut ictx, 7, 100, 0), Err(EscrowError::InvalidAmount));
    assert_eq!(ictx.initializer_ata_a.amount, 100);
    assert_eq!(m.active_count(), 0);
}

#[test]
fn initialize_rejects_underfunded_account() {
    let mut m = EscrowMachine::new();
    let mut ictx = alice_initialize_ctx(99);
    assert_eq!(initialize(&mut m, &mut ictx, 7, 100, 50), Err(EscrowError::InsufficientBalance));
    assert_eq!(ictx.initializer_ata_a.amount, 99);
    assert!(!m.is_active(ALICE, 7));
}

#[test]
fn initialize_rejects_wrong_funding_account() {
    let mut m = EscrowMachine::new();
    // Funding account holds asset B, not asset A.
    let mut wrong_mint = alice_initialize_ctx(100);
    wrong_mint.initializer_ata_a = user_account(ALICE, MINT_B, 100);
    assert_eq!(initialize(&mut m, &mut wrong_mint, 7, 100, 50), Err(EscrowError::MintMismatch));

    // Funding account belongs to someone else.
    let mut wrong_owner = alice_initialize_ctx(100);
    wrong_owner.initializer_ata_a = user_account(BOB, MINT_A, 100);
    assert_eq!(initialize(&mut m, &mut wrong_owner, 7, 100, 50), Err(EscrowError::OwnerMismatch));
    assert_eq!(m.active_count(), 0);
}

#[test]
fn exchange_rejects_wrong_asset_types() {
    let mut m = EscrowMachine::new();
    let mut ictx = alice_initialize_ctx(100);
    assert_eq!(initialize(&mut m, &mut ictx, 7, 100, 50), Ok(()));

    // The supplied mints disagree with the record.
    let mut swapped = bob_exchange_ctx(50);
    swapped.mint_a = MINT_B;
    assert_eq!(exchange(&mut m, &mut swapped, 7), Err(EscrowError::MintMismatch));

    // The taker pays from an account of the wrong asset.
    let mut wrong_pay = bob_exchange_ctx(50);
    wrong_pay.taker_ata_b = user_account(BOB, MINT_A, 50);
    assert_eq!(exchange(&mut m, &mut wrong_pay, 7), Err(EscrowError::MintMismatch));

    // Everything is still in place.
    assert_eq!(m.vault_balance(ALICE, 7), Some(100));
}

#[test]
fn exchange_rejects_misowned_accounts() {
    let mut m = EscrowMachine::new();
    let mut ictx = alice_initialize_ctx(100);
    assert_eq!(initialize(&mut m, &mut ictx, 7, 100, 50), Ok(()));

    // The initializer's receiving account does not belong to the initializer.
    let mut stolen_receive = bob_exchange_ctx(50);
    stolen_receive.initializer_ata_b = user_account(BOB, MINT_B, 0);
    assert_eq!(exchange(&mut m, &mut stolen_receive, 7), Err(EscrowError::OwnerMismatch));

    // The taker's paying account does not belong to the taker.
    let mut not_takers = bob_exchange_ctx(50);
    not_takers.taker_ata_b = user_account(ALICE, MINT_B, 50);
    assert_eq!(exchange(&mut m, &mut not_takers, 7), Err(EscrowError::OwnerMismatch));

    assert_eq!(m.vault_balance(ALICE, 7), Some(100));
}

#[test]
fn exchange_rejects_overflowing_receiver() {
    let mut m = EscrowMachine::new();
    let mut ictx = alice_initialize_ctx(100);
    assert_eq!(initialize(&mut m, &mut ictx, 7, 100, 50), Ok(()));

    // The initializer's asset-B account is too full to take the payment.
    let mut ectx = bob_exchange_ctx(50);
    ectx.initializer_ata_b = user_account(ALICE, MINT_B, u64::MAX - 49);
    assert_eq!(exchange(&mut m, &mut ectx, 7), Err(EscrowError::BalanceOverflow));
    assert_eq!(ectx.taker_ata_b.amount, 50);
    assert_eq!(m.vault_balance(ALICE, 7), Some(100));
}

#[test]
fn cancel_rejects_mismatched_refund_account() {
    let mut m = EscrowMachine::new();
    let mut ictx = alice_initialize_ctx(10);
    assert_eq!(initialize(&mut m, &mut ictx, 5, 10, 5), Ok(()));

    let mut wrong_mint = alice_cancel_ctx(0);
    wrong_mint.initializer_ata_a = user_account(ALICE, MINT_B, 0);
    assert_eq!(cancel(&mut m, &mut wrong_mint, ALICE, 5), Err(EscrowError::MintMismatch));

    let mut wrong_owner = alice_cancel_ctx(0);
    wrong_owner.initializer_ata_a = user_account(BOB, MINT_A, 0);
    assert_eq!(cancel(&mut m, &mut wrong_owner, ALICE, 5), Err(EscrowError::OwnerMismatch));

    assert_eq!(m.vault_balance(ALICE, 5), Some(10));
}

#[test]
fn cancel_of_unknown_record_is_not_active() {
    let mut m = EscrowMachine::new();
    let mut cctx = alice_cancel_ctx(0);
    assert_eq!(cancel(&mut m, &mut cctx, ALICE, 42), Err(EscrowError::NotActive));
}
