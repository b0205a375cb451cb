//! A verified payment gateway for a host ledger.
//!
//! The library models the configuration and transfer-dispatch logic of a
//! ledger-adjacent gateway: two administrator-controlled singleton
//! configuration records (a membership fee table and a deposit whitelist),
//! an asset transfer dispatcher that routes value either through the native
//! currency path or the fungible-token path, and the public gateway
//! operations that validate a caller's intent against the stored policy
//! before any value moves.
//!
//! The host environment (accounts, balances, storage funding) is modelled
//! explicitly: [`ledger::Ledger`] holds the accounts the dispatcher touches,
//! and [`gateway::Gateway`] holds the two singleton records together with
//! their backing storage size and funding balance. Every operation is
//! all-or-nothing: on any error the contracts state that no state changed.

pub mod config;
pub mod dispatch;
pub mod errors;
pub mod events;
pub mod gateway;
pub mod laws;
pub mod ledger;
