//! The asset transfer dispatcher: routes a transfer intent either through
//! the native-currency path or the fungible-token path, performing the
//! asset-specific validation first.

use vstd::prelude::*;

use crate::errors::ErrorCode;
use crate::ledger::{
    Account, AccountData, Ledger, SYSTEM_PROGRAM_ID, TOKEN_PROGRAM_ID, is_mint_account,
    is_token_account, mint_decimals, native_transfer_outcome, token_account_mint,
    token_transfer_outcome,
};

verus! {

/// What the dispatcher does to the ledger. The native sentinel asset takes
/// the native path; any other asset takes the token path, which demands a
/// usable mint record, two usable token accounts, and that both accounts
/// declare the requested asset, before the checked transfer primitive runs
/// with the mint's declared decimal precision.
pub open spec fn transfer_asset_outcome(
    m: Map<u64, Account>,
    mint: u64,
    amount: u64,
    payer: u64,
    payer_account: u64,
    destination: u64,
    destination_account: u64,
) -> Result<Map<u64, Account>, ErrorCode> {
    if mint == SYSTEM_PROGRAM_ID {
        native_transfer_outcome(m, payer, destination, amount)
    } else if !is_mint_account(m, mint) {
        Err(ErrorCode::UnsupportedMint)
    } else if !is_token_account(m, payer_account) || !is_token_account(m, destination_account) {
        Err(ErrorCode::InvalidAssetAccount)
    } else if token_account_mint(m, payer_account) != mint || token_account_mint(
        m,
        destination_account,
    ) != mint {
        Err(ErrorCode::AssetMismatch)
    } else {
        token_transfer_outcome(
            m,
            payer_account,
            destination_account,
            payer,
            mint,
            amount,
            mint_decimals(m, mint),
        )
    }
}

/// Transfer `amount` of the asset `mint` from the payer to the destination:
/// native currency moves between the payer and destination identities
/// themselves, fungible tokens between the two token accounts under the
/// payer's authority. All validation happens before any state changes; on
/// any error the ledger is untouched.
pub fn transfer_asset(
    l: &mut Ledger,
    mint: u64,
    amount: u64,
    payer: u64,
    payer_account: u64,
    destination: u64,
    destination_account: u64,
) -> (r: Result<(), ErrorCode>)
    ensures
        match transfer_asset_outcome(old(l)@, mint, amount, payer, payer_account, destination,
            destination_account) {
            Ok(m2) => r is Ok && final(l)@ == m2,
            Err(e) => r == Err::<(), ErrorCode>(e) && final(l)@ == old(l)@,
        },
{
    if mint == SYSTEM_PROGRAM_ID {
        return l.transfer_native(payer, destination, amount);
    }
    let mint_rec = l.read_account(mint);
    let decimals: u8 = match mint_rec.data {
        AccountData::Mint { decimals } => decimals,
        _ => {
            return Err(ErrorCode::UnsupportedMint);
        },
    };
    if mint_rec.owner_program != TOKEN_PROGRAM_ID {
        return Err(ErrorCode::UnsupportedMint);
    }
    let pa = l.read_account(payer_account);
    let pa_mint: u64 = match pa.data {
        AccountData::Token { mint, .. } => mint,
        _ => {
            return Err(ErrorCode::InvalidAssetAccount);
        },
    };
    if pa.owner_program != TOKEN_PROGRAM_ID {
        return Err(ErrorCode::InvalidAssetAccount);
    }
    let da = l.read_account(destination_account);
    let da_mint: u64 = match da.data {
        AccountData::Token { mint, .. } => mint,
        _ => {
            return Err(ErrorCode::InvalidAssetAccount);
        },
    };
    if da.owner_program != TOKEN_PROGRAM_ID {
        return Err(ErrorCode::InvalidAssetAccount);
    }
    if pa_mint != mint || da_mint != mint {
        return Err(ErrorCode::AssetMismatch);
    }
    l.transfer_token_checked(payer_account, destination_account, payer, mint, amount, decimals)
}

} // verus!
