//! The structured events the gateway operations emit on success. They are
//! returned to the caller, who appends them to whatever externally
//! observable log the host provides.

use vstd::prelude::*;

verus! {

/// Emitted when a membership fee payment goes through.
#[derive(Clone, Copy, Debug, PartialEq, Eq, Structural)]
pub struct MembershipPaid {
    /// The paying caller.
    pub user: u64,
    /// Asset the fee was paid in.
    pub mint: u64,
    /// Amount paid.
    pub amount: u64,
    /// The host clock's reading when the payment was accepted.
    pub timestamp: i64,
}

/// Emitted when a deposit goes through.
#[derive(Clone, Copy, Debug, PartialEq, Eq, Structural)]
pub struct DepositEvent {
    /// The depositing caller.
    pub user: u64,
    /// Asset deposited.
    pub mint: u64,
    /// Amount deposited.
    pub amount: u64,
    /// The host clock's reading when the deposit was accepted.
    pub timestamp: i64,
}

} // verus!
