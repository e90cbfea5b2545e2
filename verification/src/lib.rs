//! A bounty-escrow ledger: sponsors fund per-bounty vaults, a board authority
//! fixes the winner, and a one-time payout empties and retires the vault.
//!
//! Entities live at deterministically derived addresses (no registry), every
//! mutation is authorization-gated, and a bounty moves irreversibly through
//! open, closed, and paid-and-retired.

pub mod addr;
pub mod error;
pub mod laws;
pub mod ledger;
pub mod state;
