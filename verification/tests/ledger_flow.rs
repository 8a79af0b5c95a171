use escrow_timelock::agreement::EscrowAgreement;
use escrow_timelock::error::EscrowError;
use escrow_timelock::identity::Identity;
use escrow_timelock::model::State;
use escrow_timelock::vault::Escrow;
use soroban_sdk::address_payload::AddressPayload;
use soroban_sdk::testutils::{Address as _, EnvTestConfig, Ledger as _};
use soroban_sdk::token::{StellarAssetClient, TokenClient};
use soroban_sdk::{Address, Env};

const UNLOCK: u64 = 1_700_000_000;

fn identity_of(address: &Address) -> Identity {
    match address.to_payload() {
        Some(AddressPayload::ContractIdHash(hash)) => Identity::contract(hash.to_array()),
        Some(AddressPayload::AccountIdPublicKeyEd25519(key)) => Identity::account(key.to_array()),
        None => panic!("an address of a kind that has no payload"),
    }
}

/// A ledger with one asset, on which `owner` holds `funds`.
struct Fixture {
    env: Env,
    token: Address,
    owner: Address,
    beneficiary: Address,
    stranger: Address,
    custodian: Address,
}

impl Fixture {
    fn new(funds: i128) -> Fixture {
        let env = Env::new_with_config(EnvTestConfig { capture_snapshot_at_drop: false });
        env.mock_all_auths();
        let admin = Address::generate(&env);
        let token = env.register_stellar_asset_contract_v2(admin).address();
        let owner = Address::generate(&env);
        let beneficiary = Address::generate(&env);
        let stranger = Address::generate(&env);
        let custodian = Address::generate(&env);
        StellarAssetClient::new(&env, &token).mint(&owner, &funds);
        Fixture { env, token, owner, beneficiary, stranger, custodian }
    }

    fn balance(&self, of: &Address) -> i128 {
        TokenClient::new(&self.env, &self.token).balance(of)
    }

    fn vault(&self) -> Escrow {
        Escrow::new(identity_of(&self.custodian))
    }

    fn terms(&self, amount: i128) -> EscrowAgreement {
        EscrowAgreement {
            owner: identity_of(&self.owner),
            beneficiary: identity_of(&self.beneficiary),
            asset: identity_of(&self.token),
            amount,
            unlock_time: UNLOCK,
        }
    }

    /// A release at the time that the ledger tells.
    fn release(
        &self,
        vault: &mut Escrow,
        auth: &Option<Identity>,
        invoker: &Identity,
    ) -> Result<(), EscrowError> {
        vault.release(&self.env, auth, invoker, self.env.ledger().timestamp())
    }

    fn fund(&self, vault: &mut Escrow, amount: i128) -> Result<(), EscrowError> {
        let t = self.terms(amount);
        vault.init(&self.env, &Some(t.owner), t.owner, t.beneficiary, t.asset, t.amount, t.unlock_time)
    }
}

#[test]
fn end_to_end_on_a_ledger() {
    let f = Fixture::new(1000);
    let mut vault = f.vault();
    assert_eq!(f.fund(&mut vault, 1000), Ok(()));
    assert_eq!(vault.state(), State::Funded);
    assert_eq!(vault.agreement(), Some(f.terms(1000)));
    assert_eq!(f.balance(&f.owner), 0);
    assert_eq!(f.balance(&f.custodian), 1000);

    let stranger = identity_of(&f.stranger);
    f.env.ledger().set_timestamp(1_699_999_999);
    assert_eq!(
        f.release(&mut vault, &Some(stranger), &stranger),
        Err(EscrowError::TimelockNotExpired)
    );
    assert_eq!(vault.state(), State::Funded);
    assert_eq!(vault.agreement(), Some(f.terms(1000)));
    assert_eq!(f.balance(&f.custodian), 1000);
    assert_eq!(f.balance(&f.beneficiary), 0);

    f.env.ledger().set_timestamp(1_700_000_000);
    assert_eq!(f.release(&mut vault, &Some(stranger), &stranger), Ok(()));
    assert_eq!(vault.state(), State::Empty);
    assert_eq!(vault.agreement(), None);
    assert_eq!(f.balance(&f.custodian), 0);
    assert_eq!(f.balance(&f.beneficiary), 1000);
    assert_eq!(f.balance(&f.stranger), 0);
    assert_eq!(f.balance(&f.owner), 0);
}

#[test]
fn init_moves_exactly_the_amount() {
    let f = Fixture::new(1000);
    let mut vault = f.vault();
    assert_eq!(f.fund(&mut vault, 250), Ok(()));
    assert_eq!(f.balance(&f.owner), 750);
    assert_eq!(f.balance(&f.custodian), 250);
    assert_eq!(f.balance(&f.beneficiary), 0);
}

#[test]
fn init_without_funds_fails_and_records_nothing() {
    let f = Fixture::new(999);
    let mut vault = f.vault();
    assert_eq!(f.fund(&mut vault, 1000), Err(EscrowError::TransferFailed));
    assert_eq!(vault.state(), State::Empty);
    assert_eq!(vault.agreement(), None);
    assert_eq!(f.balance(&f.owner), 999);
    assert_eq!(f.balance(&f.custodian), 0);

    // Once the owner has the funds the same call goes through.
    StellarAssetClient::new(&f.env, &f.token).mint(&f.owner, &1);
    assert_eq!(f.fund(&mut vault, 1000), Ok(()));
    assert_eq!(vault.state(), State::Funded);
    assert_eq!(f.balance(&f.custodian), 1000);
}

#[test]
fn rejected_init_does_not_reach_the_ledger() {
    let f = Fixture::new(1000);
    let mut vault = f.vault();
    let t = f.terms(1000);
    assert_eq!(f.fund(&mut vault, 0), Err(EscrowError::InvalidAmount));
    assert_eq!(f.fund(&mut vault, -5), Err(EscrowError::InvalidAmount));
    assert_eq!(
        vault.init(&f.env, &None, t.owner, t.beneficiary, t.asset, 1000, UNLOCK),
        Err(EscrowError::Unauthorized)
    );
    assert_eq!(
        vault.init(&f.env, &Some(t.beneficiary), t.owner, t.beneficiary, t.asset, 1000, UNLOCK),
        Err(EscrowError::Unauthorized)
    );
    assert_eq!(vault.state(), State::Empty);
    assert_eq!(f.balance(&f.owner), 1000);
    assert_eq!(f.balance(&f.custodian), 0);
}

#[test]
fn second_init_moves_nothing() {
    let f = Fixture::new(1000);
    let mut vault = f.vault();
    assert_eq!(f.fund(&mut vault, 400), Ok(()));
    assert_eq!(f.fund(&mut vault, 600), Err(EscrowError::AlreadyInitialized));
    assert_eq!(vault.agreement(), Some(f.terms(400)));
    assert_eq!(f.balance(&f.owner), 600);
    assert_eq!(f.balance(&f.custodian), 400);
}

#[test]
fn owner_releases_before_the_unlock_time() {
    let f = Fixture::new(1000);
    let mut vault = f.vault();
    assert_eq!(f.fund(&mut vault, 1000), Ok(()));
    f.env.ledger().set_timestamp(0);
    let owner = identity_of(&f.owner);
    assert_eq!(f.release(&mut vault, &Some(owner), &owner), Ok(()));
    assert_eq!(vault.state(), State::Empty);
    assert_eq!(f.balance(&f.beneficiary), 1000);
    assert_eq!(f.balance(&f.owner), 0);
    assert_eq!(f.balance(&f.custodian), 0);
}

#[test]
fn release_pays_out_once() {
    let f = Fixture::new(1000);
    let mut vault = f.vault();
    assert_eq!(f.fund(&mut vault, 1000), Ok(()));
    f.env.ledger().set_timestamp(UNLOCK + 1);
    let owner = identity_of(&f.owner);
    assert_eq!(f.release(&mut vault, &Some(owner), &owner), Ok(()));
    // Even with funds in custody a second release finds no agreement.
    StellarAssetClient::new(&f.env, &f.token).mint(&f.custodian, &1000);
    assert_eq!(f.release(&mut vault, &Some(owner), &owner), Err(EscrowError::NotInitialized));
    assert_eq!(f.balance(&f.beneficiary), 1000);
    assert_eq!(f.balance(&f.custodian), 1000);
}

#[test]
fn release_on_a_fresh_vault_fails() {
    let f = Fixture::new(1000);
    let mut vault = f.vault();
    let owner = identity_of(&f.owner);
    assert_eq!(f.release(&mut vault, &Some(owner), &owner), Err(EscrowError::NotInitialized));
    assert_eq!(f.release(&mut vault, &None, &owner), Err(EscrowError::NotInitialized));
    assert_eq!(vault.state(), State::Empty);
}

#[test]
fn release_needs_proof_for_the_invoker() {
    let f = Fixture::new(1000);
    let mut vault = f.vault();
    assert_eq!(f.fund(&mut vault, 1000), Ok(()));
    f.env.ledger().set_timestamp(UNLOCK);
    let owner = identity_of(&f.owner);
    let stranger = identity_of(&f.stranger);
    assert_eq!(f.release(&mut vault, &None, &owner), Err(EscrowError::Unauthorized));
    assert_eq!(f.release(&mut vault, &Some(stranger), &owner), Err(EscrowError::Unauthorized));
    assert_eq!(vault.state(), State::Funded);
    assert_eq!(f.balance(&f.custodian), 1000);
}

#[test]
fn failed_release_can_be_retried() {
    let f = Fixture::new(1000);
    // A vault whose custody does not hold what the agreement says.
    let mut vault = Escrow::restore(identity_of(&f.custodian), Some(f.terms(300))).unwrap();
    f.env.ledger().set_timestamp(UNLOCK);
    let stranger = identity_of(&f.stranger);
    assert_eq!(
        f.release(&mut vault, &Some(stranger), &stranger),
        Err(EscrowError::TransferFailed)
    );
    assert_eq!(vault.state(), State::Funded);
    assert_eq!(vault.agreement(), Some(f.terms(300)));
    assert_eq!(f.balance(&f.beneficiary), 0);

    TokenClient::new(&f.env, &f.token).transfer(&f.owner, &f.custodian, &300);
    assert_eq!(f.release(&mut vault, &Some(stranger), &stranger), Ok(()));
    assert_eq!(vault.state(), State::Empty);
    assert_eq!(f.balance(&f.beneficiary), 300);
    assert_eq!(f.balance(&f.custodian), 0);
}

#[test]
fn asset_without_a_ledger_fails_the_transfer() {
    let f = Fixture::new(1000);
    let mut vault = f.vault();
    let t = f.terms(1000);
    // No contract lives at this hash.
    let nowhere = Identity::contract([7u8; 32]);
    assert_eq!(
        vault.init(&f.env, &Some(t.owner), t.owner, t.beneficiary, nowhere, 1000, UNLOCK),
        Err(EscrowError::TransferFailed)
    );
    // An account is no ledger at all.
    let account = Identity::account([7u8; 32]);
    assert_eq!(
        vault.init(&f.env, &Some(t.owner), t.owner, t.beneficiary, account, 1000, UNLOCK),
        Err(EscrowError::TransferFailed)
    );
    assert_eq!(vault.state(), State::Empty);
    assert_eq!(f.balance(&f.owner), 1000);
}

#[test]
fn account_without_a_balance_cannot_fund() {
    let f = Fixture::new(1000);
    let mut vault = f.vault();
    let t = f.terms(1000);
    let account = Identity::account([9u8; 32]);
    assert_eq!(
        vault.init(&f.env, &Some(account), account, t.beneficiary, t.asset, 1000, UNLOCK),
        Err(EscrowError::TransferFailed)
    );
    assert_eq!(vault.state(), State::Empty);
    assert_eq!(f.balance(&f.custodian), 0);
}

#[test]
fn third_party_release_pays_the_beneficiary() {
    let f = Fixture::new(1000);
    let mut vault = f.vault();
    assert_eq!(f.fund(&mut vault, 1000), Ok(()));
    f.env.ledger().set_timestamp(u64::MAX);
    let beneficiary = identity_of(&f.beneficiary);
    assert_eq!(f.release(&mut vault, &Some(beneficiary), &beneficiary), Ok(()));
    assert_eq!(f.balance(&f.beneficiary), 1000);
}

#[test]
fn release_judges_the_timelock_at_the_time_given() {
    let f = Fixture::new(1000);
    let mut vault = f.vault();
    assert_eq!(f.fund(&mut vault, 1000), Ok(()));
    let stranger = identity_of(&f.stranger);
    assert_eq!(
        vault.release(&f.env, &Some(stranger), &stranger, UNLOCK - 1),
        Err(EscrowError::TimelockNotExpired)
    );
    assert_eq!(vault.release(&f.env, &Some(stranger), &stranger, 0), Err(EscrowError::TimelockNotExpired));
    assert_eq!(f.balance(&f.custodian), 1000);
    assert_eq!(vault.release(&f.env, &Some(stranger), &stranger, UNLOCK), Ok(()));
    assert_eq!(f.balance(&f.beneficiary), 1000);
    assert_eq!(vault.state(), State::Empty);
}
