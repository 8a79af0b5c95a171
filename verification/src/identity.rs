use vstd::prelude::*;
use vstd::std_specs::cmp::PartialEqSpecImpl;

verus! {

/// The two kinds of party that the ledger knows.
#[derive(Clone, Copy, Debug, PartialEq, Eq, Structural)]
pub enum IdentityKind {
    /// An account, named by its public key.
    Account,
    /// A contract, named by its hash.
    Contract,
}

/// A party to an agreement: an owner, a beneficiary, an asset's ledger, or a
/// vault's own custodial identity. Two identities are the same party exactly
/// when their kind and their key agree.
#[derive(Clone, Copy, Debug)]
pub struct Identity {
    pub kind: IdentityKind,
    pub key: [u8; 32],
}

impl Identity {
    /// The account with the given public key.
    pub fn account(key: [u8; 32]) -> (id: Identity)
        ensures
            id == (Identity { kind: IdentityKind::Account, key }),
    {
        Identity { kind: IdentityKind::Account, key }
    }

    /// The contract with the given hash.
    pub fn contract(key: [u8; 32]) -> (id: Identity)
        ensures
            id == (Identity { kind: IdentityKind::Contract, key }),
    {
        Identity { kind: IdentityKind::Contract, key }
    }
}

impl PartialEq for Identity {
    /// Kind by kind and byte by byte.
    fn eq(&self, other: &Identity) -> (r: bool) {
        if self.kind != other.kind {
            return false;
        }
        let mut i: usize = 0;
        while i < 32
            invariant
                i <= 32,
                forall|j: int| 0 <= j < i ==> self.key[j] == other.key[j],
            decreases 32 - i,
        {
            if self.key[i] != other.key[i] {
                return false;
            }
            i += 1;
        }
        assert(self.key =~= other.key);
        true
    }
}

impl Eq for Identity {

}

impl PartialEqSpecImpl for Identity {
    open spec fn obeys_eq_spec() -> bool {
        true
    }

    open spec fn eq_spec(&self, other: &Identity) -> bool {
        *self == *other
    }
}

} // verus!
