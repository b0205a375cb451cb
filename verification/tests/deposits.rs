//! Deposit scenarios: the whitelist gate and both transfer paths.

use transaction_gateway::errors::ErrorCode;
use transaction_gateway::events::DepositEvent;
use transaction_gateway::gateway::{Gateway, deposit, initialize_deposit_config};
use transaction_gateway::ledger::{
    Account, AccountData, Ledger, SYSTEM_PROGRAM_ID, TOKEN_PROGRAM_ID,
};

const ADMIN: u64 = 7;
const WALLET: u64 = 18;
const USER: u64 = 5;
const TOKEN_A: u64 = 10;
const TOKEN_B: u64 = 11;
const USER_ATA: u64 = 30;
const WALLET_ATA: u64 = 31;

fn wallet(lamports: u64) -> Account {
    Account { owner_program: SYSTEM_PROGRAM_ID, lamports, data: AccountData::Wallet }
}

fn token_account(mint: u64, authority: u64, balance: u64) -> Account {
    Account {
        owner_program: TOKEN_PROGRAM_ID,
        lamports: 2_039_280,
        data: AccountData::Token { mint, authority, balance },
    }
}

fn mint_account(decimals: u8) -> Account {
    Account {
        owner_program: TOKEN_PROGRAM_ID,
        lamports: 1_461_600,
        data: AccountData::Mint { decimals },
    }
}

fn deposit_gateway(allowed: Vec<u64>) -> Gateway {
    let mut gw = Gateway::new();
    assert_eq!(initialize_deposit_config(&mut gw, ADMIN, WALLET, allowed), Ok(()));
    gw
}

fn token_ledger() -> Ledger {
    let mut l = Ledger::new();
    l.set_account(USER, wallet(10_000));
    l.set_account(WALLET, wallet(0));
    l.set_account(TOKEN_A, mint_account(9));
    l.set_account(TOKEN_B, mint_account(9));
    l.set_account(USER_ATA, token_account(TOKEN_B, USER, 600));
    l.set_account(WALLET_ATA, token_account(TOKEN_B, WALLET, 0));
    l
}

fn balances(l: &Ledger, ids: &[u64]) -> Vec<u64> {
    let mut out: Vec<u64> = Vec::new();
    for id in ids {
        let a = l.read_account(*id);
        out.push(a.lamports);
        if let AccountData::Token { balance, .. } = a.data {
            out.push(balance);
        }
    }
    out
}

#[test]
fn deposit_of_unlisted_asset_fails_with_zero_balance_change() {
    let gw = deposit_gateway(vec![TOKEN_A]);
    let mut l = token_ledger();
    let ids = [USER, WALLET, TOKEN_A, TOKEN_B, USER_ATA, WALLET_ATA];
    let before = balances(&l, &ids);
    let r = deposit(&gw, &mut l, USER, USER_ATA, WALLET, WALLET_ATA, TOKEN_B, 10, 3);
    assert_eq!(r, Err(ErrorCode::UnsupportedMint));
    assert_eq!(balances(&l, &ids), before);
}

#[test]
fn deposit_of_whitelisted_token_moves_balances() {
    let gw = deposit_gateway(vec![TOKEN_A, TOKEN_B]);
    let mut l = token_ledger();
    let r = deposit(&gw, &mut l, USER, USER_ATA, WALLET, WALLET_ATA, TOKEN_B, 10, 3);
    assert_eq!(r, Ok(DepositEvent { user: USER, mint: TOKEN_B, amount: 10, timestamp: 3 }));
    let user_ata = l.read_account(USER_ATA);
    let wallet_ata = l.read_account(WALLET_ATA);
    assert_eq!(user_ata.data, AccountData::Token { mint: TOKEN_B, authority: USER, balance: 590 });
    assert_eq!(
        wallet_ata.data,
        AccountData::Token { mint: TOKEN_B, authority: WALLET, balance: 10 }
    );
}

#[test]
fn deposit_of_native_currency_uses_native_path() {
    let gw = deposit_gateway(vec![SYSTEM_PROGRAM_ID, TOKEN_A]);
    let mut l = Ledger::new();
    l.set_account(USER, wallet(10_000));
    l.set_account(WALLET, wallet(1));
    let r = deposit(&gw, &mut l, USER, 9, WALLET, 9, SYSTEM_PROGRAM_ID, 4_000, 60);
    assert_eq!(
        r,
        Ok(DepositEvent { user: USER, mint: SYSTEM_PROGRAM_ID, amount: 4_000, timestamp: 60 })
    );
    assert_eq!(l.read_account(USER).lamports, 6_000);
    assert_eq!(l.read_account(WALLET).lamports, 4_001);
}

#[test]
fn deposit_under_wrong_authority_fails_unauthorized() {
    let gw = deposit_gateway(vec![TOKEN_B]);
    let mut l = token_ledger();
    // The paying token account is controlled by someone other than the caller.
    l.set_account(USER_ATA, token_account(TOKEN_B, 77, 600));
    let r = deposit(&gw, &mut l, USER, USER_ATA, WALLET, WALLET_ATA, TOKEN_B, 10, 3);
    assert_eq!(r, Err(ErrorCode::Unauthorized));
    let user_ata = l.read_account(USER_ATA);
    assert_eq!(user_ata.data, AccountData::Token { mint: TOKEN_B, authority: 77, balance: 600 });
}

#[test]
fn deposit_from_empty_whitelist_always_fails() {
    let gw = deposit_gateway(Vec::new());
    let mut l = token_ledger();
    let r = deposit(&gw, &mut l, USER, USER_ATA, WALLET, WALLET_ATA, TOKEN_A, 1, 3);
    assert_eq!(r, Err(ErrorCode::UnsupportedMint));
    let r = deposit(&gw, &mut l, USER, 9, WALLET, 9, SYSTEM_PROGRAM_ID, 1, 3);
    assert_eq!(r, Err(ErrorCode::UnsupportedMint));
}
