use vstd::prelude::*;

verus! {

/// Why an initialization or a roll was refused.
#[derive(Clone, Copy, Debug, PartialEq, Eq, Structural)]
pub enum ErrorCode {
    /// The chosen side is above the highest side.
    InvalidSide,
    /// The stake is zero.
    ZeroAmount,
    /// The vault is not the pool's, is of another mint, or is not owned by the
    /// pool's authority.
    OwnershipMismatch,
    /// The authority offered is not the one derived from the pool.
    AuthorityMismatch,
    /// The ledger refused the escrow or the payout transfer.
    TransferFailed,
}

} // verus!
