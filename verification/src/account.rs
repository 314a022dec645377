use vstd::prelude::*;

verus! {

/// The identity of an account on the host ledger. The library only ever
/// compares identities for equality; the host's own richer account type is
/// carried here as a plain value.
#[derive(Clone, Copy, Debug, PartialEq, Eq, Hash, Structural)]
pub struct AccountId(pub u64);

/// The host ledger's native balance width.
pub type Balance = u128;

} // verus!
