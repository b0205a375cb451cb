//! The gateway's library-wide guarantees, stated once over the spec-level
//! outcome functions that the operations' own contracts are written in.
//! Each proof function here is part of the library's stated behaviour, not
//! scaffolding for other proofs.

use vstd::prelude::*;

use crate::config::{
    MembershipFee, PUBKEY_SIZE, deposit_decision, deposit_space, fee_decision, find_fee,
};
use crate::dispatch::transfer_asset_outcome;
use crate::errors::ErrorCode;
use crate::gateway::{
    DepositRecord, deposit_growth_need, deposit_outcome, grown_space, pay_membership_outcome,
};
use crate::ledger::Account;

verus! {

/// Law: the fee decision accepts a payment exactly when the amount equals
/// the matching entry's monthly or yearly fee. With no matching entry it is
/// `UnsupportedMint`; with a matching entry and any other amount it is
/// `WrongFee`; it has no other outcome.
pub proof fn lemma_membership_fee_gate(fees: Seq<MembershipFee>, mint: u64, amount: u64)
    ensures
        fee_decision(fees, mint, amount) is Ok <==> (find_fee(fees, mint) matches Some(f) && (
        amount == f.monthly_fee || amount == f.yearly_fee)),
        fee_decision(fees, mint, amount) == Err::<(), ErrorCode>(ErrorCode::UnsupportedMint)
            <==> find_fee(fees, mint) is None,
        fee_decision(fees, mint, amount) == Err::<(), ErrorCode>(ErrorCode::WrongFee) <==> (
        find_fee(fees, mint) matches Some(f) && amount != f.monthly_fee && amount
            != f.yearly_fee),
{
}

/// Law: whenever the transfer itself would go through, a membership payment
/// succeeds exactly when the amount equals the matching fee entry's monthly
/// or yearly fee, and a matching entry with any other amount fails
/// `WrongFee`.
pub proof fn lemma_pay_membership_iff(
    fees: Seq<MembershipFee>,
    m: Map<u64, Account>,
    mint: u64,
    amount: u64,
    user: u64,
    user_ata: u64,
    treasury: u64,
    treasury_ata: u64,
)
    requires
        transfer_asset_outcome(m, mint, amount, user, user_ata, treasury, treasury_ata) is Ok,
    ensures
        pay_membership_outcome(fees, m, mint, amount, user, user_ata, treasury, treasury_ata)
            is Ok <==> (find_fee(fees, mint) matches Some(f) && (amount == f.monthly_fee || amount
            == f.yearly_fee)),
        (find_fee(fees, mint) matches Some(f) && amount != f.monthly_fee && amount
            != f.yearly_fee) ==> pay_membership_outcome(fees, m, mint, amount, user, user_ata,
            treasury, treasury_ata) == Err::<Map<u64, Account>, ErrorCode>(ErrorCode::WrongFee),
{
}

/// Law: whenever the transfer itself would go through, a deposit succeeds
/// exactly when the asset is whitelisted, and a non-whitelisted asset fails
/// `UnsupportedMint`.
pub proof fn lemma_deposit_iff(
    allowed: Seq<u64>,
    m: Map<u64, Account>,
    mint: u64,
    amount: u64,
    user: u64,
    user_ata: u64,
    deposit_wallet: u64,
    deposit_ata: u64,
)
    requires
        transfer_asset_outcome(m, mint, amount, user, user_ata, deposit_wallet, deposit_ata)
            is Ok,
    ensures
        deposit_outcome(allowed, m, mint, amount, user, user_ata, deposit_wallet, deposit_ata)
            is Ok <==> allowed.contains(mint),
        !allowed.contains(mint) ==> deposit_outcome(allowed, m, mint, amount, user, user_ata,
            deposit_wallet, deposit_ata) == Err::<Map<u64, Account>, ErrorCode>(
        ErrorCode::UnsupportedMint),
        deposit_decision(allowed, mint) is Ok <==> allowed.contains(mint),
{
}

/// Law: an immediate identical re-application of a deposit-config update is
/// a no-op for storage. `rec1` stands for the record a first successful
/// update to a whitelist of `n` entries leaves behind, exactly as
/// `update_deposit_config` ensures it; a second update to the same
/// whitelist then needs no funding and leaves the allocation where it is.
pub proof fn lemma_update_deposit_idempotent(rec0: DepositRecord, rec1: DepositRecord, n: nat)
    requires
        rec1.space as nat == grown_space(rec0.space as nat, deposit_space(n)),
        rec1.lamports as nat == rec0.lamports as nat + deposit_growth_need(rec0, n),
    ensures
        deposit_growth_need(rec1, n) == 0,
        grown_space(rec1.space as nat, deposit_space(n)) == rec1.space as nat,
{
}

/// Law: the capacity a whitelist demands grows strictly with its length,
/// and by exactly one asset-identity's size per added entry.
pub proof fn lemma_deposit_space_growth(len1: nat, len2: nat)
    requires
        len1 < len2,
    ensures
        deposit_space(len1) < deposit_space(len2),
        deposit_space(len2) - deposit_space(len1) == PUBKEY_SIZE as nat * (len2 - len1),
{
}

/// Law: an update never shrinks a record's allocation, whatever the new
/// whitelist needs.
pub proof fn lemma_capacity_never_shrinks(space: nat, req: nat)
    ensures
        grown_space(space, req) >= space,
{
}

} // verus!
