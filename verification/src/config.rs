//! The two configuration records and the pure policy decisions made against
//! them: the fee lookup for membership payments, the whitelist test for
//! deposits, and the storage-size accounting that drives capacity growth.

use vstd::prelude::*;

use crate::errors::ErrorCode;

verus! {

/// Fixed backing-storage size every configuration record is created with,
/// sized generously so the fee table can be edited within it without ever
/// growing the record.
pub const CONFIG_SPACE: usize = 1024;

/// Serialized size of the fixed head of the deposit record: admin identity,
/// deposit-wallet identity, and the whitelist's length prefix.
pub const DEPOSIT_FIXED: usize = 32 + 32 + 4;

/// Serialized size of one asset identity.
pub const PUBKEY_SIZE: usize = 32;

/// Serialized size of the type tag the host writes at the head of every
/// record's storage.
pub const RECORD_TAG_SIZE: usize = 8;

/// Serialized size of the fixed head of the membership record: admin
/// identity, treasury identity, and the fee table's length prefix.
pub const MEMBERSHIP_FIXED: usize = 32 + 32 + 4;

/// Serialized size of one fee entry: asset identity plus the two fee
/// amounts.
pub const FEE_ENTRY_SIZE: usize = 32 + 8 + 8;

/// Largest backing allocation the host permits for a single record.
pub const MAX_RECORD_SPACE: usize = 10485760;

/// Most fee entries that fit in `CONFIG_SPACE`:
/// `RECORD_TAG_SIZE + MEMBERSHIP_FIXED + FEE_ENTRY_SIZE * 19 <= 1024`.
pub const MAX_MEMBERSHIP_FEES: usize = 19;

/// Most whitelist entries that fit in the initial `CONFIG_SPACE`:
/// `RECORD_TAG_SIZE + DEPOSIT_FIXED + PUBKEY_SIZE * 29 <= 1024`.
pub const MAX_INITIAL_DEPOSIT_MINTS: usize = 29;

/// Most whitelist entries whose record still fits in `MAX_RECORD_SPACE`.
pub const MAX_DEPOSIT_MINTS: usize = 327677;

/// One fee entry: the asset it applies to and the two accepted amounts.
#[derive(Clone, Copy, Debug, PartialEq, Eq, Structural)]
pub struct MembershipFee {
    /// Asset identity; the native currency uses the reserved sentinel id.
    pub mint: u64,
    /// Exact amount accepted for a monthly payment.
    pub monthly_fee: u64,
    /// Exact amount accepted for a yearly payment.
    pub yearly_fee: u64,
}

/// The membership configuration record.
#[derive(Debug)]
pub struct MembershipConfig {
    /// Identity authorized to mutate this record.
    pub admin: u64,
    /// Destination identity for membership payments.
    pub treasury: u64,
    /// Ordered fee schedule; the first entry matching an asset wins.
    pub fees: Vec<MembershipFee>,
}

/// The deposit configuration record.
#[derive(Debug)]
pub struct DepositConfig {
    /// Identity authorized to mutate this record.
    pub admin: u64,
    /// Destination identity for deposits.
    pub deposit_wallet: u64,
    /// Whitelist of accepted asset identities.
    pub allowed_mints: Vec<u64>,
}

/// Backing storage a membership record with `n` fee entries needs.
pub open spec fn membership_space(n: nat) -> nat {
    RECORD_TAG_SIZE as nat + MEMBERSHIP_FIXED as nat + FEE_ENTRY_SIZE as nat * n
}

/// Backing storage a deposit record with `n` whitelist entries needs.
pub open spec fn deposit_space(n: nat) -> nat {
    RECORD_TAG_SIZE as nat + DEPOSIT_FIXED as nat + PUBKEY_SIZE as nat * n
}

/// Lamports the host demands a record of the given size hold to stay
/// resident: a fixed per-account overhead plus the record's own bytes, at
/// the host's byte rate.
pub open spec fn rent_exempt_minimum(space: nat) -> nat {
    (128 + space) * 6960
}

/// First fee entry for `mint`, scanning the table in order.
pub open spec fn find_fee(fees: Seq<MembershipFee>, mint: u64) -> Option<MembershipFee>
    decreases fees.len(),
{
    if fees.len() == 0 {
        None
    } else if fees[0].mint == mint {
        Some(fees[0])
    } else {
        find_fee(fees.drop_first(), mint)
    }
}

/// The membership policy decision: which error a payment of `amount` in
/// `mint` draws from the fee table, if any.
pub open spec fn fee_decision(fees: Seq<MembershipFee>, mint: u64, amount: u64) -> Result<
    (),
    ErrorCode,
> {
    match find_fee(fees, mint) {
        None => Err(ErrorCode::UnsupportedMint),
        Some(f) => if amount == f.monthly_fee || amount == f.yearly_fee {
            Ok(())
        } else {
            Err(ErrorCode::WrongFee)
        },
    }
}

/// The deposit policy decision: a deposit in `mint` is accepted exactly when
/// the whitelist holds it.
pub open spec fn deposit_decision(allowed: Seq<u64>, mint: u64) -> Result<(), ErrorCode> {
    if allowed.contains(mint) {
        Ok(())
    } else {
        Err(ErrorCode::UnsupportedMint)
    }
}

/// Linear scan of the fee table for the first entry matching `mint`.
pub fn lookup_fee(fees: &Vec<MembershipFee>, mint: u64) -> (r: Option<MembershipFee>)
    ensures
        r == find_fee(fees@, mint),
{
    proof {
        assert(fees@.skip(0) =~= fees@);
    }
    let mut i: usize = 0;
    while i < fees.len()
        invariant
            0 <= i <= fees@.len(),
            find_fee(fees@, mint) == find_fee(fees@.skip(i as int), mint),
        decreases fees@.len() - i,
    {
        if fees[i].mint == mint {
            proof {
                assert(fees@.skip(i as int)[0] == fees@[i as int]);
            }
            return Some(fees[i]);
        }
        proof {
            assert(fees@.skip(i as int).drop_first() =~= fees@.skip(i as int + 1));
        }
        i += 1;
    }
    None
}

/// Whether the whitelist holds `mint`.
pub fn mint_allowed(allowed: &Vec<u64>, mint: u64) -> (b: bool)
    ensures
        b == allowed@.contains(mint),
{
    let mut i: usize = 0;
    while i < allowed.len()
        invariant
            0 <= i <= allowed@.len(),
            forall|k: int| 0 <= k < i ==> allowed@[k] != mint,
        decreases allowed@.len() - i,
    {
        if allowed[i] == mint {
            proof {
                assert(allowed@[i as int] == mint);
            }
            return true;
        }
        i += 1;
    }
    false
}

/// Whether a fee table of `n_fees` entries fits a record of the fixed
/// `CONFIG_SPACE` allocation.
pub fn membership_fits(n_fees: usize) -> (b: bool)
    ensures
        b == (membership_space(n_fees as nat) <= CONFIG_SPACE as nat),
{
    proof {
        assert(membership_space(n_fees as nat) == 76 + 48 * (n_fees as nat));
    }
    n_fees <= MAX_MEMBERSHIP_FEES
}

/// Whether a whitelist of `n_mints` entries fits a record of the fixed
/// `CONFIG_SPACE` allocation a deposit record is created with.
pub fn deposit_fits_initial(n_mints: usize) -> (b: bool)
    ensures
        b == (deposit_space(n_mints as nat) <= CONFIG_SPACE as nat),
{
    proof {
        assert(deposit_space(n_mints as nat) == 76 + 32 * (n_mints as nat));
    }
    n_mints <= MAX_INITIAL_DEPOSIT_MINTS
}

/// Whether a whitelist of `n_mints` entries fits the largest record the
/// host permits.
pub fn deposit_fits_host(n_mints: usize) -> (b: bool)
    ensures
        b == (deposit_space(n_mints as nat) <= MAX_RECORD_SPACE as nat),
{
    proof {
        assert(deposit_space(n_mints as nat) == 76 + 32 * (n_mints as nat));
    }
    n_mints <= MAX_DEPOSIT_MINTS
}

/// Backing storage needed for a whitelist of `n_mints` entries.
pub fn compute_deposit_space(n_mints: usize) -> (s: usize)
    requires
        deposit_space(n_mints as nat) <= MAX_RECORD_SPACE as nat,
    ensures
        s as nat == deposit_space(n_mints as nat),
{
    DEPOSIT_FIXED + PUBKEY_SIZE * n_mints + RECORD_TAG_SIZE
}

/// Lamports the host demands a record of size `space` hold to stay
/// resident.
pub fn compute_rent_minimum(space: usize) -> (r: u64)
    requires
        space as nat <= MAX_RECORD_SPACE as nat,
    ensures
        r as nat == rent_exempt_minimum(space as nat),
{
    (128 + space as u64) * 6960
}

} // verus!
