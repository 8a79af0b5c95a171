use vstd::prelude::*;
use crate::agreement::EscrowAgreement;
use crate::error::{EscrowError, TransferError};
use crate::identity::Identity;
use crate::ledger::Transfer;
use crate::model::{authorizes, init_plan, init_step, release_plan, release_step, State, Vault};

verus! {

/// An empty vault rejects every `init` whose amount is zero or negative with
/// `InvalidAmount`, whoever asks and whatever the ledger would answer, and
/// stays empty.
pub proof fn lemma_init_rejects_nonpositive_amount(
    vault: Vault,
    auth: Option<Identity>,
    terms: EscrowAgreement,
    outcome: Result<(), TransferError>,
)
    requires
        vault.agreement is None,
        terms.amount <= 0,
    ensures
        init_step(vault, auth, terms, outcome) == (
            Err::<(), EscrowError>(EscrowError::InvalidAmount),
            vault,
        ),
        init_step(vault, auth, terms, outcome).1.state() == State::Empty,
{
}

/// After an `init` that succeeded, every further `init` fails with
/// `AlreadyInitialized`, with any arguments, and the agreement that the first
/// one recorded stays as it is.
pub proof fn lemma_second_init_is_rejected(
    vault: Vault,
    auth: Option<Identity>,
    terms: EscrowAgreement,
    outcome: Result<(), TransferError>,
    auth_again: Option<Identity>,
    terms_again: EscrowAgreement,
    outcome_again: Result<(), TransferError>,
)
    requires
        init_step(vault, auth, terms, outcome).0 is Ok,
    ensures
        ({
            let funded = init_step(vault, auth, terms, outcome).1;
            &&& funded.agreement == Some(terms)
            &&& init_step(funded, auth_again, terms_again, outcome_again) == (
                Err::<(), EscrowError>(EscrowError::AlreadyInitialized),
                funded,
            )
        }),
{
}

/// A vault that was never funded rejects every `release` with
/// `NotInitialized`.
pub proof fn lemma_release_needs_init(
    custodian: Identity,
    auth: Option<Identity>,
    invoker: Identity,
    now: u64,
    outcome: Result<(), TransferError>,
)
    ensures
        release_step(Vault::empty(custodian), auth, invoker, now, outcome) == (
            Err::<(), EscrowError>(EscrowError::NotInitialized),
            Vault::empty(custodian),
        ),
{
}

/// An authorized invoker who is not the owner is rejected with
/// `TimelockNotExpired` at every time before the unlock time, and the vault
/// stays as it is. From the unlock time on the whole amount is ordered from
/// custody to the beneficiary, and once the ledger has moved it the vault is
/// empty.
pub proof fn lemma_timelock_gates_others(
    vault: Vault,
    auth: Option<Identity>,
    invoker: Identity,
    now: u64,
    outcome: Result<(), TransferError>,
)
    requires
        vault.agreement is Some,
        invoker != vault.agreement->0.owner,
        authorizes(auth, invoker),
    ensures
        ({
            let terms = vault.agreement->0;
            &&& now < terms.unlock_time ==> release_step(vault, auth, invoker, now, outcome) == (
                Err::<(), EscrowError>(EscrowError::TimelockNotExpired),
                vault,
            )
            &&& now >= terms.unlock_time ==> release_plan(vault, auth, invoker, now) == Ok::<
                Transfer,
                EscrowError,
            >(
                Transfer {
                    asset: terms.asset,
                    from: vault.custodian,
                    to: terms.beneficiary,
                    amount: terms.amount,
                },
            )
            &&& now >= terms.unlock_time && outcome is Ok ==> release_step(
                vault,
                auth,
                invoker,
                now,
                outcome,
            ) == (Ok::<(), EscrowError>(()), vault.emptied())
        }),
{
}

/// The authorized owner is never held back by the timelock: at every time the
/// whole amount is ordered from custody to the beneficiary, and once the
/// ledger has moved it the agreement is erased.
pub proof fn lemma_owner_releases_at_any_time(
    vault: Vault,
    auth: Option<Identity>,
    now: u64,
    outcome: Result<(), TransferError>,
)
    requires
        vault.agreement is Some,
        authorizes(auth, vault.agreement->0.owner),
    ensures
        ({
            let terms = vault.agreement->0;
            &&& release_plan(vault, auth, terms.owner, now) == Ok::<Transfer, EscrowError>(
                Transfer {
                    asset: terms.asset,
                    from: vault.custodian,
                    to: terms.beneficiary,
                    amount: terms.amount,
                },
            )
            &&& outcome is Ok ==> release_step(vault, auth, terms.owner, now, outcome) == (
                Ok::<(), EscrowError>(()),
                vault.emptied(),
            )
            &&& outcome is Ok ==> release_step(vault, auth, terms.owner, now, outcome).1.agreement
                is None
        }),
{
}

/// The funds of an agreement leave the vault at most once: after a `release`
/// that succeeded, every further `release` fails with `NotInitialized` and
/// orders nothing from the ledger.
pub proof fn lemma_release_happens_once(
    vault: Vault,
    auth: Option<Identity>,
    invoker: Identity,
    now: u64,
    outcome: Result<(), TransferError>,
    auth_again: Option<Identity>,
    invoker_again: Identity,
    now_again: u64,
    outcome_again: Result<(), TransferError>,
)
    requires
        release_step(vault, auth, invoker, now, outcome).0 is Ok,
    ensures
        ({
            let emptied = release_step(vault, auth, invoker, now, outcome).1;
            &&& release_plan(emptied, auth_again, invoker_again, now_again) == Err::<
                Transfer,
                EscrowError,
            >(EscrowError::NotInitialized)
            &&& release_step(emptied, auth_again, invoker_again, now_again, outcome_again) == (
                Err::<(), EscrowError>(EscrowError::NotInitialized),
                emptied,
            )
        }),
{
}

/// A transfer that fails during `init` leaves the vault empty: the call fails
/// with `TransferFailed` where it had reached the ledger, and in every case no
/// agreement is recorded.
pub proof fn lemma_failed_transfer_keeps_vault_empty(
    vault: Vault,
    auth: Option<Identity>,
    terms: EscrowAgreement,
    error: TransferError,
)
    requires
        vault.agreement is None,
    ensures
        init_step(vault, auth, terms, Err(error)).0 is Err,
        init_step(vault, auth, terms, Err(error)).1 == vault,
        init_plan(vault, auth, terms) is Ok ==> init_step(vault, auth, terms, Err(error)).0 == Err::<
            (),
            EscrowError,
        >(EscrowError::TransferFailed),
{
}

/// A transfer that fails during `release` leaves the vault funded with the
/// same agreement, and the same call succeeds once the ledger moves the funds.
pub proof fn lemma_failed_transfer_keeps_vault_funded(
    vault: Vault,
    auth: Option<Identity>,
    invoker: Identity,
    now: u64,
    error: TransferError,
)
    requires
        vault.agreement is Some,
    ensures
        ({
            let failed = release_step(vault, auth, invoker, now, Err(error));
            &&& failed.0 is Err
            &&& failed.1 == vault
            &&& release_plan(vault, auth, invoker, now) is Ok ==> {
                &&& failed.0 == Err::<(), EscrowError>(EscrowError::TransferFailed)
                &&& release_step(failed.1, auth, invoker, now, Ok(())) == (
                    Ok::<(), EscrowError>(()),
                    vault.emptied(),
                )
            }
        }),
{
}

/// Every rejection leaves the vault exactly as it was.
pub proof fn lemma_rejection_changes_nothing(
    vault: Vault,
    auth: Option<Identity>,
    terms: EscrowAgreement,
    invoker: Identity,
    now: u64,
    outcome: Result<(), TransferError>,
)
    ensures
        init_step(vault, auth, terms, outcome).0 is Err ==> init_step(vault, auth, terms, outcome).1
            == vault,
        release_step(vault, auth, invoker, now, outcome).0 is Err ==> release_step(
            vault,
            auth,
            invoker,
            now,
            outcome,
        ).1 == vault,
{
}

/// A held agreement is never altered: whatever the operation, the vault
/// afterwards holds the agreement it held before or none, its custodian is the
/// same, and it is well formed if it was.
pub proof fn lemma_agreement_is_immutable(
    vault: Vault,
    auth: Option<Identity>,
    terms: EscrowAgreement,
    invoker: Identity,
    now: u64,
    outcome: Result<(), TransferError>,
)
    requires
        vault.wf(),
    ensures
        ({
            let after_init = init_step(vault, auth, terms, outcome).1;
            let after_release = release_step(vault, auth, invoker, now, outcome).1;
            &&& after_init.wf()
            &&& after_release.wf()
            &&& after_init.custodian == vault.custodian
            &&& after_release.custodian == vault.custodian
            &&& vault.agreement is Some ==> after_init.agreement == vault.agreement
            &&& vault.agreement is Some ==> after_release.agreement == vault.agreement
                || after_release.agreement is None
            &&& vault.agreement is None ==> after_release.agreement is None
        }),
{
}

} // verus!
