use vstd::prelude::*;
use crate::identity::Identity;

verus! {

/// The terms under which a vault holds funds. A vault never changes them
/// between the `init` that records them and the `release` that erases them.
#[derive(Clone, Copy, Debug)]
pub struct EscrowAgreement {
    /// The party who funded the vault and may release early.
    pub owner: Identity,
    /// The party who receives the funds.
    pub beneficiary: Identity,
    /// The ledger of the asset that is held.
    pub asset: Identity,
    /// The quantity that is held.
    pub amount: i128,
    /// The earliest time at which anyone may trigger the release.
    pub unlock_time: u64,
}

impl EscrowAgreement {
    /// An agreement is valid when it locks a strictly positive amount.
    pub open spec fn valid(self) -> bool {
        self.amount > 0
    }

    /// Whether `invoker` may trigger the release at time `now`: the owner
    /// always, anyone else from the unlock time on.
    pub open spec fn releasable_by(self, invoker: Identity, now: u64) -> bool {
        invoker == self.owner || now >= self.unlock_time
    }

    pub fn is_valid(&self) -> (r: bool)
        ensures
            r == self.valid(),
    {
        self.amount > 0
    }

    pub fn is_releasable_by(&self, invoker: &Identity, now: u64) -> (r: bool)
        ensures
            r == self.releasable_by(*invoker, now),
    {
        *invoker == self.owner || now >= self.unlock_time
    }
}

impl PartialEq for EscrowAgreement {
    fn eq(&self, other: &EscrowAgreement) -> (r: bool) {
        self.owner == other.owner && self.beneficiary == other.beneficiary && self.asset
            == other.asset && self.amount == other.amount && self.unlock_time == other.unlock_time
    }
}

impl Eq for EscrowAgreement {

}

impl vstd::std_specs::cmp::PartialEqSpecImpl for EscrowAgreement {
    open spec fn obeys_eq_spec() -> bool {
        true
    }

    open spec fn eq_spec(&self, other: &EscrowAgreement) -> bool {
        *self == *other
    }
}

} // verus!
