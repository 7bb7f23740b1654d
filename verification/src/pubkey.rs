use vstd::prelude::*;

verus! {

/// An account address on the host ledger.
///
/// The vesting logic only ever compares addresses for equality — ownership
/// checks, beneficiary checks, and the back-reference from a schedule to its
/// treasury ledger. A plain integer identifier therefore stands in for the
/// full key; the host runtime maps it to real addresses.
#[derive(Clone, Copy, Debug, PartialEq, Eq, Hash, Structural)]
pub struct Pubkey(pub u64);

} // verus!
