use vstd::prelude::*;
use soroban_sdk::address_payload::AddressPayload;
use soroban_sdk::token::TokenClient;
use soroban_sdk::{Address, BytesN, Env};
use crate::error::TransferError;
use crate::identity::{Identity, IdentityKind};

verus! {

// Every call into the host is metered. Where the budget of the invocation runs
// out the host aborts the invocation as a whole and rolls back what it did: the
// functions below then do not return, and no contract here says when.

/// The host environment of the running invocation. Nothing is known of what
/// is inside it.
#[verifier::external_type_specification]
#[verifier::external_body]
pub struct ExEnv(Env);

/// The host's handle for a party. Nothing is known of what is inside it.
#[verifier::external_type_specification]
#[verifier::external_body]
pub struct ExAddress(Address);

/// An order to the asset ledger: move `amount` of `asset` from `from` to `to`.
#[derive(Clone, Copy, Debug, PartialEq, Eq)]
pub struct Transfer {
    pub asset: Identity,
    pub from: Identity,
    pub to: Identity,
    pub amount: i128,
}

/// `AddressPayload::to_address` on an account's public key: the host's handle
/// for that account. Nothing is claimed of the handle.
#[verifier::external_body]
fn account_address(env: &Env, key: &[u8; 32]) -> (address: Address) {
    AddressPayload::AccountIdPublicKeyEd25519(BytesN::from_array(env, key)).to_address(env)
}

/// `AddressPayload::to_address` on a contract's hash: the host's handle for
/// that contract. Nothing is claimed of the handle.
#[verifier::external_body]
fn contract_address(env: &Env, key: &[u8; 32]) -> (address: Address) {
    AddressPayload::ContractIdHash(BytesN::from_array(env, key)).to_address(env)
}

/// `TokenClient::try_transfer` on the token contract whose hash is `asset`.
/// `Ok` is returned when the contract ran and returned unit. `Err` is
/// returned when it is missing, rejected the transfer or failed, and also when
/// it ran and returned a value that is not unit, which no token should. Which
/// of the two comes back depends on the ledger, so nothing is claimed of it.
/// Where the host runs out of budget or is led outside the footprint of the
/// transaction, it aborts the whole invocation and this function does not
/// return.
#[verifier::external_body]
fn token_transfer(env: &Env, asset: &[u8; 32], from: &Address, to: &Address, amount: i128) -> (r:
    Result<(), TransferError>) {
    let token = AddressPayload::ContractIdHash(BytesN::from_array(env, asset)).to_address(env);
    match TokenClient::new(env, &token).try_transfer(from, to, &amount) {
        Ok(Ok(())) => Ok(()),
        _ => Err(TransferError),
    }
}

/// The host's handle for `id`.
fn address_of(env: &Env, id: &Identity) -> Address {
    match id.kind {
        IdentityKind::Account => account_address(env, &id.key),
        IdentityKind::Contract => contract_address(env, &id.key),
    }
}

/// Hands `order` to the asset ledger and reports whether the funds moved.
/// A ledger is a contract: an order on an asset that names an account fails
/// without the host being asked.
pub(crate) fn execute(env: &Env, order: &Transfer) -> (r: Result<(), TransferError>)
    ensures
        order.asset.kind != IdentityKind::Contract ==> r is Err,
{
    match order.asset.kind {
        IdentityKind::Account => Err(TransferError),
        IdentityKind::Contract => {
            let from = address_of(env, &order.from);
            let to = address_of(env, &order.to);
            token_transfer(env, &order.asset.key, &from, &to, order.amount)
        },
    }
}

} // verus!
