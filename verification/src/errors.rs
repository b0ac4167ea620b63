use vstd::prelude::*;

verus! {

/// Every way an operation of this ledger can fail.
///
/// All failures are surfaced to the caller and abort the whole operation:
/// no operation leaves a partial state behind.
#[derive(Clone, Copy, Debug, PartialEq, Eq, Structural)]
pub enum ErrorCode {
    /// `initialize` was called for an owner that already has a ledger entry.
    AlreadyExists,
    /// `withdraw` asked for more than the owner's recorded balance.
    InsufficientBalance,
    /// The presented authority does not control the account it tries to move
    /// funds from, or the caller is not the ledger entry's recorded owner.
    AuthorizationFailure,
    /// The transfer primitive itself rejected the movement (the source
    /// account holds too few tokens, or the destination would overflow);
    /// propagated verbatim, the ledger left unmutated.
    TransferPrimitiveFailure,
}

} // verus!
