//! The gateway's public operations and the two singleton configuration
//! records they guard.
//!
//! Each record lives in host storage of a known size, funded with the
//! lamports the host demands for residency. The membership record keeps its
//! generous fixed allocation forever; the deposit record's whitelist is
//! open-ended, so an update grows the allocation — funding the growth from
//! the calling admin first, then growing, then writing. Every operation is
//! atomic: the contracts state that on any error nothing changed.

use vstd::prelude::*;
use vstd::pervasive::unreached;

use crate::config::{
    CONFIG_SPACE, DepositConfig, MAX_RECORD_SPACE, MembershipConfig, MembershipFee,
    compute_deposit_space, compute_rent_minimum, deposit_decision, deposit_space, fee_decision,
    lookup_fee, membership_space, mint_allowed, rent_exempt_minimum,
};
use crate::dispatch::{transfer_asset, transfer_asset_outcome};
use crate::errors::ErrorCode;
use crate::events::{DepositEvent, MembershipPaid};
use crate::ledger::{Account, Ledger, native_balance, stored_account};

verus! {

/// The membership configuration record as stored by the host: the policy
/// fields plus the backing allocation and its residency funding.
#[derive(Debug)]
pub struct MembershipRecord {
    /// The stored policy.
    pub config: MembershipConfig,
    /// Backing storage allocated for the record.
    pub space: usize,
    /// Lamports the record holds to pay for its residency.
    pub lamports: u64,
}

/// The deposit configuration record as stored by the host.
#[derive(Debug)]
pub struct DepositRecord {
    /// The stored policy.
    pub config: DepositConfig,
    /// Backing storage allocated for the record.
    pub space: usize,
    /// Lamports the record holds to pay for its residency.
    pub lamports: u64,
}

/// The gateway's storage: at most one record of each kind, each addressed by
/// its own fixed well-known key. `None` models the uninitialized state; the
/// only transition out of it is the matching initialize operation.
pub struct Gateway {
    /// The membership configuration singleton.
    pub membership: Option<MembershipRecord>,
    /// The deposit configuration singleton.
    pub deposit: Option<DepositRecord>,
}

impl MembershipRecord {
    /// The record's storage invariant: the fee table fits the allocation,
    /// and the allocation is the fixed one the record was created with —
    /// the membership record is never grown.
    pub open spec fn wf(&self) -> bool {
        &&& membership_space(self.config.fees@.len()) <= self.space as nat
        &&& self.space == CONFIG_SPACE
    }
}

impl DepositRecord {
    /// The record's storage invariant: the whitelist fits the allocation,
    /// the allocation stays within what the host permits, and the record
    /// holds at least the residency minimum for its size — growth is funded
    /// before the allocation is enlarged, and a write never outruns the
    /// allocation.
    pub open spec fn wf(&self) -> bool {
        &&& deposit_space(self.config.allowed_mints@.len()) <= self.space as nat
        &&& self.space <= MAX_RECORD_SPACE
        &&& rent_exempt_minimum(self.space as nat) <= self.lamports as nat
    }
}

impl Gateway {
    /// Both singletons, where present, satisfy their storage invariants.
    pub open spec fn wf(&self) -> bool {
        &&& (self.membership matches Some(rec) ==> rec.wf())
        &&& (self.deposit matches Some(rec) ==> rec.wf())
    }

    /// A gateway with neither record initialized.
    pub fn new() -> (g: Gateway)
        ensures
            g.membership is None,
            g.deposit is None,
            g.wf(),
    {
        Gateway { membership: None, deposit: None }
    }
}

/// Extra storage funding an update of the deposit record to `n` whitelist
/// entries demands of the caller: nothing unless the record must grow, and
/// otherwise whatever lamports the grown record's residency minimum exceeds
/// its current funding by.
pub open spec fn deposit_growth_need(rec: DepositRecord, n: nat) -> nat {
    let req = deposit_space(n);
    if req > rec.space as nat {
        if rent_exempt_minimum(req) > rec.lamports as nat {
            (rent_exempt_minimum(req) - rec.lamports as nat) as nat
        } else {
            0
        }
    } else {
        0
    }
}

/// Storage allocation after an update that needs `req` bytes: grown to
/// exactly `req` when the current allocation is too small, untouched
/// otherwise — an allocation never shrinks.
pub open spec fn grown_space(space: nat, req: nat) -> nat {
    if req > space {
        req
    } else {
        space
    }
}

/// The ledger after the caller funds a storage growth of `need` lamports:
/// untouched when nothing is needed, otherwise the payer's account debited.
pub open spec fn funded_map(m: Map<u64, Account>, payer: u64, need: nat) -> Map<u64, Account> {
    if need == 0 {
        m
    } else {
        let a = stored_account(m, payer);
        m.insert(
            payer,
            Account {
                owner_program: a.owner_program,
                lamports: (a.lamports - need) as u64,
                data: a.data,
            },
        )
    }
}

/// What `pay_membership` does: the fee-table decision first, then the
/// dispatcher.
pub open spec fn pay_membership_outcome(
    fees: Seq<MembershipFee>,
    m: Map<u64, Account>,
    mint: u64,
    amount: u64,
    user: u64,
    user_ata: u64,
    treasury: u64,
    treasury_ata: u64,
) -> Result<Map<u64, Account>, ErrorCode> {
    match fee_decision(fees, mint, amount) {
        Err(e) => Err(e),
        Ok(()) => transfer_asset_outcome(m, mint, amount, user, user_ata, treasury, treasury_ata),
    }
}

/// What `deposit` does: the whitelist decision first, then the dispatcher.
pub open spec fn deposit_outcome(
    allowed: Seq<u64>,
    m: Map<u64, Account>,
    mint: u64,
    amount: u64,
    user: u64,
    user_ata: u64,
    deposit_wallet: u64,
    deposit_ata: u64,
) -> Result<Map<u64, Account>, ErrorCode> {
    match deposit_decision(allowed, mint) {
        Err(e) => Err(e),
        Ok(()) => transfer_asset_outcome(
            m,
            mint,
            amount,
            user,
            user_ata,
            deposit_wallet,
            deposit_ata,
        ),
    }
}

/// Create the membership configuration singleton. Fails if it already
/// exists; otherwise the record is created with the given fields in the
/// fixed generous allocation, funded at the host's residency minimum. The
/// host refuses a fee table that cannot fit the allocation, so that input is
/// excluded by precondition.
pub fn initialize_membership_config(
    gw: &mut Gateway,
    admin: u64,
    treasury: u64,
    fees: Vec<MembershipFee>,
) -> (r: Result<(), ErrorCode>)
    requires
        old(gw).wf(),
        membership_space(fees@.len()) <= CONFIG_SPACE as nat,
    ensures
        final(gw).wf(),
        final(gw).deposit == old(gw).deposit,
        old(gw).membership is Some ==> r == Err::<(), ErrorCode>(ErrorCode::AlreadyInitialized)
            && final(gw).membership == old(gw).membership,
        old(gw).membership is None ==> r is Ok,
        old(gw).membership is None ==> (final(gw).membership matches Some(rec)
            && rec.config.admin == admin
            && rec.config.treasury == treasury
            && rec.config.fees@ == fees@
            && rec.space == CONFIG_SPACE
            && rec.lamports as nat == rent_exempt_minimum(CONFIG_SPACE as nat)),
{
    if gw.membership.is_some() {
        return Err(ErrorCode::AlreadyInitialized);
    }
    let lamports = compute_rent_minimum(CONFIG_SPACE);
    gw.membership = Some(
        MembershipRecord {
            config: MembershipConfig { admin, treasury, fees },
            space: CONFIG_SPACE,
            lamports,
        },
    );
    Ok(())
}

/// Create the deposit configuration singleton. Fails if it already exists;
/// otherwise the record is created with the given fields in the fixed
/// initial allocation, funded at the host's residency minimum. The host
/// refuses a whitelist that cannot fit the initial allocation, so that input
/// is excluded by precondition.
pub fn initialize_deposit_config(
    gw: &mut Gateway,
    admin: u64,
    deposit_wallet: u64,
    allowed_mints: Vec<u64>,
) -> (r: Result<(), ErrorCode>)
    requires
        old(gw).wf(),
        deposit_space(allowed_mints@.len()) <= CONFIG_SPACE as nat,
    ensures
        final(gw).wf(),
        final(gw).membership == old(gw).membership,
        old(gw).deposit is Some ==> r == Err::<(), ErrorCode>(ErrorCode::AlreadyInitialized)
            && final(gw).deposit == old(gw).deposit,
        old(gw).deposit is None ==> r is Ok,
        old(gw).deposit is None ==> (final(gw).deposit matches Some(rec)
            && rec.config.admin == admin
            && rec.config.deposit_wallet == deposit_wallet
            && rec.config.allowed_mints@ == allowed_mints@
            && rec.space == CONFIG_SPACE
            && rec.lamports as nat == rent_exempt_minimum(CONFIG_SPACE as nat)),
{
    if gw.deposit.is_some() {
        return Err(ErrorCode::AlreadyInitialized);
    }
    let lamports = compute_rent_minimum(CONFIG_SPACE);
    gw.deposit = Some(
        DepositRecord {
            config: DepositConfig { admin, deposit_wallet, allowed_mints },
            space: CONFIG_SPACE,
            lamports,
        },
    );
    Ok(())
}

/// Pay a membership fee: look up the fee entry for `mint` (first match
/// wins), accept only the exact monthly or yearly amount, then dispatch the
/// transfer from the caller to the configured treasury and return the event
/// to emit. The destination the caller supplies must literally equal the
/// stored treasury — enforced as a precondition, never discovered after the
/// transfer.
pub fn pay_membership(
    gw: &Gateway,
    l: &mut Ledger,
    user: u64,
    user_ata: u64,
    treasury: u64,
    treasury_ata: u64,
    mint: u64,
    amount: u64,
    now: i64,
) -> (r: Result<MembershipPaid, ErrorCode>)
    requires
        gw.membership matches Some(rec) && treasury == rec.config.treasury,
    ensures
        gw.membership matches Some(rec) ==> match pay_membership_outcome(rec.config.fees@,
            old(l)@, mint, amount, user, user_ata, treasury, treasury_ata) {
            Ok(m2) => (r matches Ok(ev) && ev == (MembershipPaid {
                user,
                mint,
                amount,
                timestamp: now,
            })) && final(l)@ == m2,
            Err(e) => r == Err::<MembershipPaid, ErrorCode>(e) && final(l)@ == old(l)@,
        },
{
    let rec = match &gw.membership {
        Some(rec) => rec,
        None => unreached(),
    };
    let fee = match lookup_fee(&rec.config.fees, mint) {
        Some(f) => f,
        None => {
            return Err(ErrorCode::UnsupportedMint);
        },
    };
    if !(amount == fee.monthly_fee || amount == fee.yearly_fee) {
        return Err(ErrorCode::WrongFee);
    }
    match transfer_asset(l, mint, amount, user, user_ata, treasury, treasury_ata) {
        Ok(()) => Ok(MembershipPaid { user, mint, amount, timestamp: now }),
        Err(e) => Err(e),
    }
}

/// Make a deposit: accept only a whitelisted asset, then dispatch the
/// transfer from the caller to the configured deposit wallet and return the
/// event to emit. The destination the caller supplies must literally equal
/// the stored deposit wallet — enforced as a precondition.
pub fn deposit(
    gw: &Gateway,
    l: &mut Ledger,
    user: u64,
    user_ata: u64,
    deposit_wallet: u64,
    deposit_ata: u64,
    mint: u64,
    amount: u64,
    now: i64,
) -> (r: Result<DepositEvent, ErrorCode>)
    requires
        gw.deposit matches Some(rec) && deposit_wallet == rec.config.deposit_wallet,
    ensures
        gw.deposit matches Some(rec) ==> match deposit_outcome(rec.config.allowed_mints@,
            old(l)@, mint, amount, user, user_ata, deposit_wallet, deposit_ata) {
            Ok(m2) => (r matches Ok(ev) && ev == (DepositEvent {
                user,
                mint,
                amount,
                timestamp: now,
            })) && final(l)@ == m2,
            Err(e) => r == Err::<DepositEvent, ErrorCode>(e) && final(l)@ == old(l)@,
        },
{
    let rec = match &gw.deposit {
        Some(rec) => rec,
        None => unreached(),
    };
    if !mint_allowed(&rec.config.allowed_mints, mint) {
        return Err(ErrorCode::UnsupportedMint);
    }
    match transfer_asset(l, mint, amount, user, user_ata, deposit_wallet, deposit_ata) {
        Ok(()) => Ok(DepositEvent { user, mint, amount, timestamp: now }),
        Err(e) => Err(e),
    }
}

/// Replace the whole membership configuration (admin only). Every replace
/// overwrites all three fields atomically; the allocation and its funding
/// are untouched. A non-admin caller fails `Unauthorized` and changes
/// nothing.
pub fn update_membership_config(
    gw: &mut Gateway,
    caller: u64,
    admin: u64,
    treasury: u64,
    fees: Vec<MembershipFee>,
) -> (r: Result<(), ErrorCode>)
    requires
        old(gw).wf(),
        old(gw).membership is Some,
        membership_space(fees@.len()) <= CONFIG_SPACE as nat,
    ensures
        final(gw).wf(),
        final(gw).deposit == old(gw).deposit,
        old(gw).membership matches Some(rec0) ==> {
            &&& caller != rec0.config.admin ==> r == Err::<(), ErrorCode>(ErrorCode::Unauthorized)
                && final(gw).membership == old(gw).membership
            &&& caller == rec0.config.admin ==> r is Ok && (final(gw).membership matches Some(rec)
                && rec.config.admin == admin
                && rec.config.treasury == treasury
                && rec.config.fees@ == fees@
                && rec.space == rec0.space
                && rec.lamports == rec0.lamports)
        },
{
    let (space0, lamports0, admin0): (usize, u64, u64) = match &gw.membership {
        Some(rec) => (rec.space, rec.lamports, rec.config.admin),
        None => unreached(),
    };
    if caller != admin0 {
        return Err(ErrorCode::Unauthorized);
    }
    gw.membership = Some(
        MembershipRecord {
            config: MembershipConfig { admin, treasury, fees },
            space: space0,
            lamports: lamports0,
        },
    );
    Ok(())
}

/// Replace the whole deposit configuration (admin only). If the new
/// whitelist needs more storage than the record has, the caller funds the
/// difference up to the grown record's residency minimum, the allocation
/// grows to exactly what is needed, and only then are the fields written.
/// If the caller cannot fund the growth, the operation fails
/// `InsufficientFunds` and nothing — record or ledger — changes. A non-admin
/// caller fails `Unauthorized` and changes nothing. The host refuses a
/// whitelist beyond its largest permitted record, so that input is excluded
/// by precondition.
pub fn update_deposit_config(
    gw: &mut Gateway,
    l: &mut Ledger,
    caller: u64,
    admin: u64,
    deposit_wallet: u64,
    allowed_mints: Vec<u64>,
) -> (r: Result<(), ErrorCode>)
    requires
        old(gw).wf(),
        old(gw).deposit is Some,
        deposit_space(allowed_mints@.len()) <= MAX_RECORD_SPACE as nat,
    ensures
        final(gw).wf(),
        final(gw).membership == old(gw).membership,
        old(gw).deposit matches Some(rec0) ==> {
            let need = deposit_growth_need(rec0, allowed_mints@.len());
            &&& caller != rec0.config.admin ==> r == Err::<(), ErrorCode>(ErrorCode::Unauthorized)
                && final(gw).deposit == old(gw).deposit
                && final(l)@ == old(l)@
            &&& caller == rec0.config.admin && native_balance(old(l)@, caller) < need ==> r
                == Err::<(), ErrorCode>(ErrorCode::InsufficientFunds)
                && final(gw).deposit == old(gw).deposit
                && final(l)@ == old(l)@
            &&& caller == rec0.config.admin && native_balance(old(l)@, caller) >= need ==> r is Ok
                && (final(gw).deposit matches Some(rec)
                && rec.config.admin == admin
                && rec.config.deposit_wallet == deposit_wallet
                && rec.config.allowed_mints@ == allowed_mints@
                && rec.space as nat == grown_space(rec0.space as nat, deposit_space(
                    allowed_mints@.len(),
                ))
                && rec.lamports as nat == rec0.lamports as nat + need)
                && final(l)@ == funded_map(old(l)@, caller, need)
        },
        old(gw).deposit matches Some(rec0) ==> (final(gw).deposit matches Some(rec)
            ==> rec.space >= rec0.space),
{
    let (space0, lamports0, admin0): (usize, u64, u64) = match &gw.deposit {
        Some(rec) => (rec.space, rec.lamports, rec.config.admin),
        None => unreached(),
    };
    if caller != admin0 {
        return Err(ErrorCode::Unauthorized);
    }
    let req = compute_deposit_space(allowed_mints.len());
    let mut new_space = space0;
    let mut new_lamports = lamports0;
    if req > space0 {
        let min_balance = compute_rent_minimum(req);
        let diff: u64 = if min_balance > lamports0 {
            min_balance - lamports0
        } else {
            0
        };
        if diff > 0 {
            let payer = l.read_account(caller);
            if payer.lamports < diff {
                return Err(ErrorCode::InsufficientFunds);
            }
            l.set_account(
                caller,
                Account {
                    owner_program: payer.owner_program,
                    lamports: payer.lamports - diff,
                    data: payer.data,
                },
            );
            new_lamports = lamports0 + diff;
        }
        new_space = req;
    }
    gw.deposit = Some(
        DepositRecord {
            config: DepositConfig { admin, deposit_wallet, allowed_mints },
            space: new_space,
            lamports: new_lamports,
        },
    );
    Ok(())
}

/// Hand the membership record to a new admin (admin only). Only the admin
/// field changes. A non-admin caller fails `Unauthorized` and changes
/// nothing.
pub fn change_membership_admin(gw: &mut Gateway, caller: u64, new_admin: u64) -> (r: Result<
    (),
    ErrorCode,
>)
    requires
        old(gw).wf(),
        old(gw).membership is Some,
    ensures
        final(gw).wf(),
        final(gw).deposit == old(gw).deposit,
        old(gw).membership matches Some(rec0) ==> {
            &&& caller != rec0.config.admin ==> r == Err::<(), ErrorCode>(ErrorCode::Unauthorized)
                && final(gw).membership == old(gw).membership
            &&& caller == rec0.config.admin ==> r is Ok && (final(gw).membership matches Some(rec)
                && rec.config.admin == new_admin
                && rec.config.treasury == rec0.config.treasury
                && rec.config.fees == rec0.config.fees
                && rec.space == rec0.space
                && rec.lamports == rec0.lamports)
        },
{
    match &mut gw.membership {
        Some(rec) => {
            if caller != rec.config.admin {
                return Err(ErrorCode::Unauthorized);
            }
            rec.config.admin = new_admin;
            Ok(())
        },
        None => unreached(),
    }
}

/// Hand the deposit record to a new admin (admin only). Only the admin
/// field changes. A non-admin caller fails `Unauthorized` and changes
/// nothing.
pub fn change_deposit_admin(gw: &mut Gateway, caller: u64, new_admin: u64) -> (r: Result<
    (),
    ErrorCode,
>)
    requires
        old(gw).wf(),
        old(gw).deposit is Some,
    ensures
        final(gw).wf(),
        final(gw).membership == old(gw).membership,
        old(gw).deposit matches Some(rec0) ==> {
            &&& caller != rec0.config.admin ==> r == Err::<(), ErrorCode>(ErrorCode::Unauthorized)
                && final(gw).deposit == old(gw).deposit
            &&& caller == rec0.config.admin ==> r is Ok && (final(gw).deposit matches Some(rec)
                && rec.config.admin == new_admin
                && rec.config.deposit_wallet == rec0.config.deposit_wallet
                && rec.config.allowed_mints == rec0.config.allowed_mints
                && rec.space == rec0.space
                && rec.lamports == rec0.lamports)
        },
{
    match &mut gw.deposit {
        Some(rec) => {
            if caller != rec.config.admin {
                return Err(ErrorCode::Unauthorized);
            }
            rec.config.admin = new_admin;
            Ok(())
        },
        None => unreached(),
    }
}

} // verus!
