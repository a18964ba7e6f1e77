//! The typed failures of the escrow transitions.
use vstd::prelude::*;

verus! {

/// Why a transition was refused. Every failure leaves the ledger untouched.
#[derive(Clone, Copy, Debug, PartialEq, Eq, Structural)]
pub enum EscrowError {
    /// An escrow is already open at the key derived for this seller.
    DuplicateEscrow,
    /// The seller's source account does not hold the declared asset, or is
    /// not the seller's.
    AssetMismatch,
    /// A referenced account is missing, or its address, asset type or owner
    /// fails a cross-check against the escrow entry.
    AccountMismatch,
    /// A required signature is absent, or the signer is not the authority
    /// that the operation demands.
    AuthorizationFailure,
    /// A debit was rejected for want of funds.
    InsufficientBalance,
}

} // verus!
