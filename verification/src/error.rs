use vstd::prelude::*;

verus! {

/// Why the asset ledger did not move the funds.
#[derive(Clone, Copy, Debug, PartialEq, Eq, Structural)]
pub struct TransferError;

/// Why a vault rejected an operation. Every rejection leaves the vault as it
/// was.
#[derive(Clone, Copy, Debug, PartialEq, Eq, Structural)]
pub enum EscrowError {
    /// The amount offered to `init` was zero or negative.
    InvalidAmount,
    /// No proof of authorization was presented, or it was for another identity.
    Unauthorized,
    /// `init` was called on a vault that already holds an agreement.
    AlreadyInitialized,
    /// `release` was called on a vault that holds no agreement.
    NotInitialized,
    /// Someone other than the owner asked for release before the unlock time.
    TimelockNotExpired,
    /// The asset ledger did not complete the movement of funds.
    TransferFailed,
}

} // verus!
