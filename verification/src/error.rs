//! The error taxonomy. Every failure is detected before any record or
//! balance is touched, so an error always leaves the ledger exactly as it
//! was.

use vstd::prelude::*;

verus! {

#[derive(Clone, Copy, PartialEq, Eq, Structural, Debug)]
pub enum LedgerError {
    /// A create hit an address that already holds a fully initialized record.
    AlreadyInitialized,
    /// An operation named an address at which no record exists.
    NotFound,
    /// The signer does not match the recorded authority, or does not own the
    /// vault being drawn from.
    Unauthorized,
    /// A state-machine guard was violated: paying a bounty that is not
    /// closed, a hunter-name mismatch, or a balance that cannot move.
    PreconditionFailed,
    /// A vault's asset type differs from the board's accepted asset.
    AssetMismatch,
    /// A caller-supplied address does not match the recomputed derivation.
    AddressMismatch,
}

} // verus!
