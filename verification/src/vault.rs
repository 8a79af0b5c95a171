use vstd::prelude::*;
use soroban_sdk::Env;
use crate::agreement::EscrowAgreement;
use crate::error::{EscrowError, TransferError};
use crate::identity::{Identity, IdentityKind};
use crate::ledger::{execute, Transfer};
use crate::model::{authorizes, init_plan, init_step, release_plan, release_step, State, Vault};

verus! {

/// A vault: it holds at most one agreement, from the `init` that funds it to
/// the `release` that pays it out.
pub struct Escrow {
    custodian: Identity,
    agreement: Option<EscrowAgreement>,
}

impl View for Escrow {
    type V = Vault;

    closed spec fn view(&self) -> Vault {
        Vault { custodian: self.custodian, agreement: self.agreement }
    }
}

/// Whether `auth` is a proof of authorization for `who`.
pub fn is_authorized(auth: &Option<Identity>, who: &Identity) -> (r: bool)
    ensures
        r == authorizes(*auth, *who),
{
    match auth {
        Some(subject) => *subject == *who,
        None => false,
    }
}

impl Escrow {
    #[verifier::type_invariant]
    spec fn inv(self) -> bool {
        self@.wf()
    }

    /// An empty vault that holds funds under `custodian`.
    pub fn new(custodian: Identity) -> (vault: Escrow)
        ensures
            vault@ == Vault::empty(custodian),
    {
        Escrow { custodian, agreement: None }
    }

    /// The vault that holds funds under `custodian` and is bound by
    /// `agreement`, as it was left by an earlier call. There is none where the
    /// agreement is not valid.
    pub fn restore(custodian: Identity, agreement: Option<EscrowAgreement>) -> (r: Option<Escrow>)
        ensures
            r is Some <==> (Vault { custodian, agreement }).wf(),
            r matches Some(vault) ==> vault@ == (Vault { custodian, agreement }),
    {
        let valid = match &agreement {
            Some(terms) => terms.is_valid(),
            None => true,
        };
        if valid {
            Some(Escrow { custodian, agreement })
        } else {
            None
        }
    }

    /// The identity under which this vault holds funds.
    pub fn custodian(&self) -> (id: Identity)
        ensures
            id == self@.custodian,
    {
        self.custodian
    }

    /// The agreement that this vault holds, if any.
    pub fn agreement(&self) -> (a: Option<EscrowAgreement>)
        ensures
            a == self@.agreement,
            a matches Some(terms) ==> terms.valid(),
    {
        proof {
            use_type_invariant(self);
        }
        self.agreement
    }

    pub fn state(&self) -> (s: State)
        ensures
            s == self@.state(),
    {
        match self.agreement {
            Some(_) => State::Funded,
            None => State::Empty,
        }
    }

    /// The transfer that `init` would order from the ledger, or the reason for
    /// which it would order none.
    pub fn plan_init(&self, auth: &Option<Identity>, terms: &EscrowAgreement) -> (r: Result<
        Transfer,
        EscrowError,
    >)
        ensures
            r == init_plan(self@, *auth, *terms),
    {
        if self.agreement.is_some() {
            Err(EscrowError::AlreadyInitialized)
        } else if terms.amount <= 0 {
            Err(EscrowError::InvalidAmount)
        } else if !is_authorized(auth, &terms.owner) {
            Err(EscrowError::Unauthorized)
        } else {
            Ok(
                Transfer {
                    asset: terms.asset,
                    from: terms.owner,
                    to: self.custodian,
                    amount: terms.amount,
                },
            )
        }
    }

    /// `init`, once the ledger has answered `outcome` to the transfer of
    /// `plan_init`: the terms are recorded if the funds have moved, and the
    /// vault is left as it was in every other case.
    pub fn init_with(
        &mut self,
        auth: &Option<Identity>,
        terms: EscrowAgreement,
        outcome: Result<(), TransferError>,
    ) -> (r: Result<(), EscrowError>)
        ensures
            (r, final(self)@) == init_step(old(self)@, *auth, terms, outcome),
    {
        match self.plan_init(auth, &terms) {
            Err(e) => Err(e),
            Ok(_) => match outcome {
                Ok(_) => {
                    self.agreement = Some(terms);
                    Ok(())
                },
                Err(_) => Err(EscrowError::TransferFailed),
            },
        }
    }

    /// Funds the vault: moves `amount` of `asset` from `owner` into custody and
    /// records the agreement. `auth` is the authorization that the caller
    /// presented.
    ///
    /// The call is rejected, in this order, when the vault is funded, when the
    /// amount is not positive and when `auth` is not for `owner`. Otherwise
    /// the ledger decides: the result is that of `init_with` for the answer it
    /// gave. An asset that is no contract has no ledger to move it.
    ///
    /// Once the ledger is asked, the host may end the whole invocation for its
    /// own limits (its budget, the footprint of the transaction) and roll back
    /// what was done. The call then does not return and the vault is not
    /// changed.
    pub fn init(
        &mut self,
        env: &Env,
        auth: &Option<Identity>,
        owner: Identity,
        beneficiary: Identity,
        asset: Identity,
        amount: i128,
        unlock_time: u64,
    ) -> (r: Result<(), EscrowError>)
        ensures
            ({
                let terms = EscrowAgreement { owner, beneficiary, asset, amount, unlock_time };
                ||| (r, final(self)@) == init_step(old(self)@, *auth, terms, Ok(()))
                ||| (r, final(self)@) == init_step(old(self)@, *auth, terms, Err(TransferError))
            }),
            r is Ok ==> asset.kind == IdentityKind::Contract,
    {
        let terms = EscrowAgreement { owner, beneficiary, asset, amount, unlock_time };
        match self.plan_init(auth, &terms) {
            Err(e) => Err(e),
            Ok(order) => {
                let outcome = execute(env, &order);
                self.init_with(auth, terms, outcome)
            },
        }
    }

    /// The transfer that `release` would order from the ledger at time `now`,
    /// or the reason for which it would order none.
    pub fn plan_release(&self, auth: &Option<Identity>, invoker: &Identity, now: u64) -> (r:
        Result<Transfer, EscrowError>)
        ensures
            r == release_plan(self@, *auth, *invoker, now),
    {
        match &self.agreement {
            None => Err(EscrowError::NotInitialized),
            Some(terms) => {
                if !is_authorized(auth, invoker) {
                    Err(EscrowError::Unauthorized)
                } else if !terms.is_releasable_by(invoker, now) {
                    Err(EscrowError::TimelockNotExpired)
                } else {
                    Ok(
                        Transfer {
                            asset: terms.asset,
                            from: self.custodian,
                            to: terms.beneficiary,
                            amount: terms.amount,
                        },
                    )
                }
            },
        }
    }

    /// `release` at time `now`, once the ledger has answered `outcome` to the
    /// transfer of `plan_release`: the agreement is erased if the funds have
    /// moved, and the vault is left as it was in every other case.
    pub fn release_with(
        &mut self,
        auth: &Option<Identity>,
        invoker: &Identity,
        now: u64,
        outcome: Result<(), TransferError>,
    ) -> (r: Result<(), EscrowError>)
        ensures
            (r, final(self)@) == release_step(old(self)@, *auth, *invoker, now, outcome),
    {
        match self.plan_release(auth, invoker, now) {
            Err(e) => Err(e),
            Ok(_) => match outcome {
                Ok(_) => {
                    self.agreement = None;
                    Ok(())
                },
                Err(_) => Err(EscrowError::TransferFailed),
            },
        }
    }

    /// Pays the vault out at time `now`: moves the whole amount from custody to
    /// the beneficiary and erases the agreement. `auth` is the authorization
    /// that the caller presented, `now` the time that the caller read from the
    /// ledger.
    ///
    /// The call is rejected, in this order, when the vault is empty, when
    /// `auth` is not for `invoker`, and when `invoker` is not the owner and
    /// `now` is before the unlock time. Otherwise the ledger decides: the result
    /// is that of `release_with` for the answer it gave.
    ///
    /// Once the ledger is asked, the host may end the whole invocation for its
    /// own limits (its budget, the footprint of the transaction) and roll back
    /// what was done. The call then does not return and the vault is not
    /// changed.
    pub fn release(
        &mut self,
        env: &Env,
        auth: &Option<Identity>,
        invoker: &Identity,
        now: u64,
    ) -> (r: Result<(), EscrowError>)
        ensures
            ({
                ||| (r, final(self)@) == release_step(old(self)@, *auth, *invoker, now, Ok(()))
                ||| (r, final(self)@) == release_step(
                    old(self)@,
                    *auth,
                    *invoker,
                    now,
                    Err(TransferError),
                )
            }),
            r is Ok ==> old(self)@.agreement->0.asset.kind == IdentityKind::Contract,
    {
        match self.plan_release(auth, invoker, now) {
            Err(e) => Err(e),
            Ok(order) => {
                let outcome = execute(env, &order);
                self.release_with(auth, invoker, now, outcome)
            },
        }
    }
}

} // verus!
