//! Gas accounting of a hook call.
use vstd::prelude::*;

verus! {

/// The gas of one call: the limit it was given and what is left of it.
#[derive(Clone, Copy, Debug, PartialEq, Eq, Structural)]
pub struct Gas {
    pub limit: u64,
    pub remaining: u64,
}

impl Gas {
    /// A fresh meter whose whole limit is still available.
    pub fn new(limit: u64) -> (g: Gas)
        ensures
            g.limit == limit,
            g.remaining == limit,
    {
        Gas { limit, remaining: limit }
    }

    /// Charges `cost` if that much is left, and says whether it did.
    /// A refused charge leaves the meter as it was.
    pub fn record_cost(&mut self, cost: u64) -> (ok: bool)
        ensures
            ok == (cost <= old(self).remaining),
            final(self).limit == old(self).limit,
            final(self).remaining == (if ok {
                old(self).remaining - cost
            } else {
                old(self).remaining as int
            }),
    {
        if cost <= self.remaining {
            self.remaining = self.remaining - cost;
            true
        } else {
            false
        }
    }
}

/// revm's `COLD_ACCOUNT_ACCESS_COST`: the price of a first access to an
/// account in a transaction.
#[verifier::external_body]
pub(crate) fn cold_account_access_cost() -> (c: u64)
    ensures
        c == 2600,
{
    revm::interpreter::gas::COLD_ACCOUNT_ACCESS_COST
}

/// revm's `WARM_STORAGE_READ_COST`: the price of a repeated access.
#[verifier::external_body]
pub(crate) fn warm_storage_read_cost() -> (c: u64)
    ensures
        c == 100,
{
    revm::interpreter::gas::WARM_STORAGE_READ_COST
}

} // verus!
