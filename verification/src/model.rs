use vstd::prelude::*;
use crate::agreement::EscrowAgreement;
use crate::error::{EscrowError, TransferError};
use crate::identity::Identity;
use crate::ledger::Transfer;

verus! {

/// The two states of a vault.
#[derive(Clone, Copy, Debug, PartialEq, Eq, Structural)]
pub enum State {
    /// No agreement is held: before `init`, and again after `release`.
    Empty,
    /// An agreement is held and its funds are in custody.
    Funded,
}

/// What a vault is: the identity under which it holds funds, and the one
/// agreement it holds, if any.
pub struct Vault {
    pub custodian: Identity,
    pub agreement: Option<EscrowAgreement>,
}

impl Vault {
    /// A held agreement is always valid.
    pub open spec fn wf(self) -> bool {
        self.agreement matches Some(a) ==> a.valid()
    }

    pub open spec fn state(self) -> State {
        if self.agreement is Some {
            State::Funded
        } else {
            State::Empty
        }
    }

    /// The vault with `custodian` that holds nothing.
    pub open spec fn empty(custodian: Identity) -> Vault {
        Vault { custodian, agreement: None }
    }

    /// This vault once it holds `terms`.
    pub open spec fn funded_with(self, terms: EscrowAgreement) -> Vault {
        Vault { custodian: self.custodian, agreement: Some(terms) }
    }

    /// This vault once its agreement is erased.
    pub open spec fn emptied(self) -> Vault {
        Vault { custodian: self.custodian, agreement: None }
    }
}

/// A proof of authorization binds the caller to one identity. It serves for
/// `who` when it is present and names `who`, and nobody else.
pub open spec fn authorizes(auth: Option<Identity>, who: Identity) -> bool {
    auth == Some(who)
}

/// What `init` asks of the ledger, or why it asks nothing: the vault must be
/// empty, then the amount positive, then the owner authorized. The funds go
/// from the owner into the vault's custody.
pub open spec fn init_plan(vault: Vault, auth: Option<Identity>, terms: EscrowAgreement) -> Result<
    Transfer,
    EscrowError,
> {
    if vault.agreement is Some {
        Err(EscrowError::AlreadyInitialized)
    } else if terms.amount <= 0 {
        Err(EscrowError::InvalidAmount)
    } else if !authorizes(auth, terms.owner) {
        Err(EscrowError::Unauthorized)
    } else {
        Ok(
            Transfer {
                asset: terms.asset,
                from: terms.owner,
                to: vault.custodian,
                amount: terms.amount,
            },
        )
    }
}

/// What `init` returns and what the vault is afterwards, when the ledger
/// answers `outcome` to the transfer of `init_plan`. The terms are recorded
/// only once the funds have moved.
pub open spec fn init_step(
    vault: Vault,
    auth: Option<Identity>,
    terms: EscrowAgreement,
    outcome: Result<(), TransferError>,
) -> (Result<(), EscrowError>, Vault) {
    match init_plan(vault, auth, terms) {
        Err(e) => (Err(e), vault),
        Ok(_) => match outcome {
            Ok(_) => (Ok(()), vault.funded_with(terms)),
            Err(_) => (Err(EscrowError::TransferFailed), vault),
        },
    }
}

/// What `release` asks of the ledger at time `now`, or why it asks nothing:
/// the vault must be funded, then the invoker authorized, then either the
/// owner or past the unlock time. The funds go from the vault's custody to the
/// beneficiary, whoever the invoker is.
pub open spec fn release_plan(vault: Vault, auth: Option<Identity>, invoker: Identity, now: u64)
    -> Result<Transfer, EscrowError> {
    match vault.agreement {
        None => Err(EscrowError::NotInitialized),
        Some(terms) => if !authorizes(auth, invoker) {
            Err(EscrowError::Unauthorized)
        } else if !terms.releasable_by(invoker, now) {
            Err(EscrowError::TimelockNotExpired)
        } else {
            Ok(
                Transfer {
                    asset: terms.asset,
                    from: vault.custodian,
                    to: terms.beneficiary,
                    amount: terms.amount,
                },
            )
        },
    }
}

/// What `release` returns and what the vault is afterwards, when the ledger
/// answers `outcome` to the transfer of `release_plan`. The agreement is
/// erased only once the funds have moved.
pub open spec fn release_step(
    vault: Vault,
    auth: Option<Identity>,
    invoker: Identity,
    now: u64,
    outcome: Result<(), TransferError>,
) -> (Result<(), EscrowError>, Vault) {
    match release_plan(vault, auth, invoker, now) {
        Err(e) => (Err(e), vault),
        Ok(_) => match outcome {
            Ok(_) => (Ok(()), vault.emptied()),
            Err(_) => (Err(EscrowError::TransferFailed), vault),
        },
    }
}

} // verus!
