//! Membership payment scenarios: the fee gate, the native path, and the
//! fungible-token path.

use transaction_gateway::config::MembershipFee;
use transaction_gateway::errors::ErrorCode;
use transaction_gateway::events::MembershipPaid;
use transaction_gateway::gateway::{Gateway, initialize_membership_config, pay_membership};
use transaction_gateway::ledger::{
    Account, AccountData, Ledger, SYSTEM_PROGRAM_ID, TOKEN_PROGRAM_ID,
};

const ADMIN: u64 = 7;
const TREASURY: u64 = 8;
const USER: u64 = 5;
const TOKEN_MINT: u64 = 20;
const USER_ATA: u64 = 30;
const TREASURY_ATA: u64 = 31;

fn wallet(lamports: u64) -> Account {
    Account { owner_program: SYSTEM_PROGRAM_ID, lamports, data: AccountData::Wallet }
}

fn token_account(mint: u64, authority: u64, balance: u64) -> Account {
    Account {
        owner_program: TOKEN_PROGRAM_ID,
        lamports: 2_039_280,
        data: AccountData::Token { mint, authority, balance },
    }
}

fn mint_account(decimals: u8) -> Account {
    Account {
        owner_program: TOKEN_PROGRAM_ID,
        lamports: 1_461_600,
        data: AccountData::Mint { decimals },
    }
}

fn native_fee_gateway() -> Gateway {
    let mut gw = Gateway::new();
    let fees = vec![MembershipFee { mint: SYSTEM_PROGRAM_ID, monthly_fee: 100, yearly_fee: 1000 }];
    assert_eq!(initialize_membership_config(&mut gw, ADMIN, TREASURY, fees), Ok(()));
    gw
}

fn lamports_of(l: &Ledger, id: u64) -> u64 {
    l.read_account(id).lamports
}

fn token_balance_of(l: &Ledger, id: u64) -> u64 {
    match l.read_account(id).data {
        AccountData::Token { balance, .. } => balance,
        _ => panic!("not a token account"),
    }
}

#[test]
fn native_membership_payment_exact_monthly_fee() {
    let gw = native_fee_gateway();
    let mut l = Ledger::new();
    l.set_account(USER, wallet(500));
    l.set_account(TREASURY, wallet(0));
    let r = pay_membership(&gw, &mut l, USER, 9, TREASURY, 9, SYSTEM_PROGRAM_ID, 100, 42);
    assert_eq!(
        r,
        Ok(MembershipPaid { user: USER, mint: SYSTEM_PROGRAM_ID, amount: 100, timestamp: 42 })
    );
    assert_eq!(lamports_of(&l, USER), 400);
    assert_eq!(lamports_of(&l, TREASURY), 100);
}

#[test]
fn native_membership_payment_wrong_fee_changes_nothing() {
    let gw = native_fee_gateway();
    let mut l = Ledger::new();
    l.set_account(USER, wallet(500));
    l.set_account(TREASURY, wallet(0));
    let r = pay_membership(&gw, &mut l, USER, 9, TREASURY, 9, SYSTEM_PROGRAM_ID, 50, 42);
    assert_eq!(r, Err(ErrorCode::WrongFee));
    assert_eq!(lamports_of(&l, USER), 500);
    assert_eq!(lamports_of(&l, TREASURY), 0);
}

#[test]
fn native_membership_payment_accepts_yearly_fee() {
    let gw = native_fee_gateway();
    let mut l = Ledger::new();
    l.set_account(USER, wallet(1500));
    l.set_account(TREASURY, wallet(0));
    let r = pay_membership(&gw, &mut l, USER, 9, TREASURY, 9, SYSTEM_PROGRAM_ID, 1000, 7);
    assert_eq!(
        r,
        Ok(MembershipPaid { user: USER, mint: SYSTEM_PROGRAM_ID, amount: 1000, timestamp: 7 })
    );
    assert_eq!(lamports_of(&l, USER), 500);
    assert_eq!(lamports_of(&l, TREASURY), 1000);
}

#[test]
fn native_membership_payment_insolvent_payer_fails() {
    let gw = native_fee_gateway();
    let mut l = Ledger::new();
    l.set_account(USER, wallet(400));
    l.set_account(TREASURY, wallet(0));
    let r = pay_membership(&gw, &mut l, USER, 9, TREASURY, 9, SYSTEM_PROGRAM_ID, 1000, 7);
    assert_eq!(r, Err(ErrorCode::InsufficientFunds));
    assert_eq!(lamports_of(&l, USER), 400);
    assert_eq!(lamports_of(&l, TREASURY), 0);
}

#[test]
fn unknown_mint_fails_unsupported() {
    let gw = native_fee_gateway();
    let mut l = Ledger::new();
    l.set_account(USER, wallet(500));
    let r = pay_membership(&gw, &mut l, USER, USER_ATA, TREASURY, TREASURY_ATA, 99, 100, 42);
    assert_eq!(r, Err(ErrorCode::UnsupportedMint));
    assert_eq!(lamports_of(&l, USER), 500);
}

#[test]
fn fee_lookup_first_match_wins() {
    let mut gw = Gateway::new();
    let fees = vec![
        MembershipFee { mint: SYSTEM_PROGRAM_ID, monthly_fee: 100, yearly_fee: 1000 },
        MembershipFee { mint: SYSTEM_PROGRAM_ID, monthly_fee: 77, yearly_fee: 777 },
    ];
    assert_eq!(initialize_membership_config(&mut gw, ADMIN, TREASURY, fees), Ok(()));
    let mut l = Ledger::new();
    l.set_account(USER, wallet(500));
    l.set_account(TREASURY, wallet(0));
    // The duplicate's amounts are not accepted: only the first entry counts.
    let r = pay_membership(&gw, &mut l, USER, 9, TREASURY, 9, SYSTEM_PROGRAM_ID, 77, 1);
    assert_eq!(r, Err(ErrorCode::WrongFee));
    let r = pay_membership(&gw, &mut l, USER, 9, TREASURY, 9, SYSTEM_PROGRAM_ID, 100, 1);
    assert!(r.is_ok());
}

fn token_fee_gateway() -> Gateway {
    let mut gw = Gateway::new();
    let fees = vec![MembershipFee { mint: TOKEN_MINT, monthly_fee: 250, yearly_fee: 2500 }];
    assert_eq!(initialize_membership_config(&mut gw, ADMIN, TREASURY, fees), Ok(()));
    gw
}

fn token_ledger() -> Ledger {
    let mut l = Ledger::new();
    l.set_account(USER, wallet(10_000));
    l.set_account(TREASURY, wallet(0));
    l.set_account(TOKEN_MINT, mint_account(6));
    l.set_account(USER_ATA, token_account(TOKEN_MINT, USER, 1000));
    l.set_account(TREASURY_ATA, token_account(TOKEN_MINT, TREASURY, 0));
    l
}

#[test]
fn token_membership_payment_moves_token_balances() {
    let gw = token_fee_gateway();
    let mut l = token_ledger();
    let r = pay_membership(&gw, &mut l, USER, USER_ATA, TREASURY, TREASURY_ATA, TOKEN_MINT, 250, 9);
    assert_eq!(
        r,
        Ok(MembershipPaid { user: USER, mint: TOKEN_MINT, amount: 250, timestamp: 9 })
    );
    assert_eq!(token_balance_of(&l, USER_ATA), 750);
    assert_eq!(token_balance_of(&l, TREASURY_ATA), 250);
    // Native balances are untouched on the token path.
    assert_eq!(lamports_of(&l, USER), 10_000);
    assert_eq!(lamports_of(&l, TREASURY), 0);
}

#[test]
fn token_membership_payment_insolvent_token_account_fails() {
    let gw = token_fee_gateway();
    let mut l = token_ledger();
    l.set_account(USER_ATA, token_account(TOKEN_MINT, USER, 100));
    let r = pay_membership(&gw, &mut l, USER, USER_ATA, TREASURY, TREASURY_ATA, TOKEN_MINT, 250, 9);
    assert_eq!(r, Err(ErrorCode::InsufficientFunds));
    assert_eq!(token_balance_of(&l, USER_ATA), 100);
    assert_eq!(token_balance_of(&l, TREASURY_ATA), 0);
}

#[test]
fn token_membership_payment_foreign_mint_owner_fails() {
    let gw = token_fee_gateway();
    let mut l = token_ledger();
    l.set_account(
        TOKEN_MINT,
        Account {
            owner_program: SYSTEM_PROGRAM_ID,
            lamports: 0,
            data: AccountData::Mint { decimals: 6 },
        },
    );
    let r = pay_membership(&gw, &mut l, USER, USER_ATA, TREASURY, TREASURY_ATA, TOKEN_MINT, 250, 9);
    assert_eq!(r, Err(ErrorCode::UnsupportedMint));
    assert_eq!(token_balance_of(&l, USER_ATA), 1000);
}

#[test]
fn token_membership_payment_wallet_as_token_account_fails() {
    let gw = token_fee_gateway();
    let mut l = token_ledger();
    l.set_account(USER_ATA, wallet(0));
    let r = pay_membership(&gw, &mut l, USER, USER_ATA, TREASURY, TREASURY_ATA, TOKEN_MINT, 250, 9);
    assert_eq!(r, Err(ErrorCode::InvalidAssetAccount));
    assert_eq!(token_balance_of(&l, TREASURY_ATA), 0);
}

#[test]
fn token_membership_payment_mismatched_account_mint_fails() {
    let gw = token_fee_gateway();
    let mut l = token_ledger();
    l.set_account(USER_ATA, token_account(99, USER, 1000));
    let r = pay_membership(&gw, &mut l, USER, USER_ATA, TREASURY, TREASURY_ATA, TOKEN_MINT, 250, 9);
    assert_eq!(r, Err(ErrorCode::AssetMismatch));
    assert_eq!(token_balance_of(&l, TREASURY_ATA), 0);
}
