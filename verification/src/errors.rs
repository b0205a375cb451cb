use vstd::prelude::*;

verus! {

/// The gateway's complete error taxonomy. Every failure is detected before
/// any state mutation, aborts the whole operation, and is surfaced to the
/// caller as one of these variants.
#[derive(Clone, Copy, Debug, PartialEq, Eq, Structural)]
pub enum ErrorCode {
    /// An initialize operation found its singleton record already present.
    AlreadyInitialized,
    /// The caller of an admin-only operation is not the stored admin, or a
    /// token transfer was attempted under an authority that does not control
    /// the paying token account.
    Unauthorized,
    /// The asset is not in the fee table / whitelist, or its metadata
    /// account is not a usable mint of the recognized token standard.
    UnsupportedMint,
    /// The payment amount matches neither the monthly nor the yearly fee of
    /// the matching fee entry.
    WrongFee,
    /// A token account handed to the dispatcher is not a usable account of
    /// the recognized token standard.
    InvalidAssetAccount,
    /// A token account's declared asset differs from the requested asset.
    AssetMismatch,
    /// A balance is too small: the payer cannot cover the transfer, the
    /// destination cannot absorb it, or the admin cannot fund a required
    /// storage growth.
    InsufficientFunds,
}

} // verus!
