//! The ways an escrow operation fails.

use vstd::prelude::*;

verus! {

/// One of the two transfers that a release is made of.
#[derive(Clone, Copy, Debug, PartialEq, Eq, Structural)]
pub enum Leg {
    /// The platform's share.
    Fee,
    /// What is left for the developer.
    Payout,
}

/// Why the host could not carry out a transfer.
#[derive(Clone, Copy, Debug, PartialEq, Eq, Structural)]
pub enum TransferError {
    /// The transfer broke off without naming a reason.
    Aborted,
    /// The recipient refused the transfer with this code.
    Rejected(u32),
}

/// Why an escrow operation was refused. Each error ends the invocation that
/// met it; none is retried by the escrow itself.
#[derive(Clone, Copy, Debug, PartialEq, Eq, Structural)]
pub enum EscrowError {
    /// The terms of this escrow are already set.
    AlreadyInitialized,
    /// The parties, the amount or the fee rate are not acceptable.
    InvalidTerms,
    /// The terms of this escrow have not been set yet.
    NotInitialized,
    /// The escrow has been paid out.
    AlreadyReleased,
    /// The host could not carry out the transfer of `leg`. When `leg` is
    /// [`Leg::Payout`] the fee transfer has already gone through.
    TransferFailed { leg: Leg, cause: TransferError },
}

} // verus!
