use vstd::prelude::*;

verus! {

/// The errors a pool operation can surface. Every error is terminal for
/// the call that raised it and is returned verbatim to the caller.
#[derive(Clone, Copy, Debug, PartialEq, Eq, Structural)]
pub enum Error {
    /// The caller is not the pool's designated authority.
    Unauthorized,
    /// The pool has no registered payees.
    NoPayees,
    /// The host ledger rejected a transfer to a payee.
    TransferFailed,
    /// A zero value arose where a positive one is required: a zero-value
    /// deposit, a zero balance, or a balance too small to give every payee
    /// at least one unit.
    ZeroShare,
    /// A payout is already in flight: the reentrancy guard is locked.
    ReentrancyGuardLocked,
}

} // verus!
