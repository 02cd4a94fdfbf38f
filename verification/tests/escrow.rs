use coaching_contract::custody::submit;
use coaching_contract::custody::Transfer;
use coaching_contract::custody::TransferFault;
use coaching_contract::AuthContext;
use coaching_contract::ClientStats;
use coaching_contract::CoachingContract;
use coaching_contract::CoachingSession;
use coaching_contract::Error;
use coaching_contract::Identity;
use soroban_sdk::address_payload::AddressPayload;
use soroban_sdk::testutils::Address as _;
use soroban_sdk::testutils::EnvTestConfig;
use soroban_sdk::token::StellarAssetClient;
use soroban_sdk::token::TokenClient;
use soroban_sdk::Address;
use soroban_sdk::Env;

fn identity_of(address: &Address) -> Identity {
    match address.to_payload().unwrap() {
        AddressPayload::AccountIdPublicKeyEd25519(key) => Identity::account(key.to_array()),
        AddressPayload::ContractIdHash(key) => Identity::contract(key.to_array()),
    }
}

fn ledger_env() -> Env {
    let env = Env::new_with_config(EnvTestConfig { capture_snapshot_at_drop: false });
    env.mock_all_auths();
    env
}

struct Fixture {
    env: Env,
    token: Address,
    custodian: Address,
    client: Address,
    coach: Address,
    contract: CoachingContract,
}

fn fixture(funds: i128) -> Fixture {
    let env = ledger_env();
    let custodian = Address::generate(&env);
    let client = Address::generate(&env);
    let coach = Address::generate(&env);
    let admin = Address::generate(&env);
    let token = env.register_stellar_asset_contract_v2(admin).address();
    StellarAssetClient::new(&env, &token).mint(&client, &funds);
    let mut contract = CoachingContract::new(identity_of(&custodian));
    assert_eq!(contract.initialize(identity_of(&token)), Ok(()));
    Fixture { env, token, custodian, client, coach, contract }
}

fn balance(f: &Fixture, who: &Address) -> i128 {
    TokenClient::new(&f.env, &f.token).balance(who)
}

#[test]
fn test_create_and_complete_session() {
    let mut env = ledger_env();
    let contract_id = Address::generate(&env);
    let mut client = CoachingContract::new(identity_of(&contract_id));

    let client_addr = Address::generate(&env);
    let coach_addr = Address::generate(&env);
    let token_admin = Address::generate(&env);

    let token_contract = env.register_stellar_asset_contract_v2(token_admin.clone());
    let token = TokenClient::new(&env, &token_contract.address());
    let token_admin_client = StellarAssetClient::new(&env, &token_contract.address());

    token_admin_client.mint(&client_addr, &1000);

    client.initialize(identity_of(&token_contract.address())).unwrap();

    let session_id = client
        .create_session(
            &mut env,
            &AuthContext::new(identity_of(&client_addr)),
            identity_of(&client_addr),
            identity_of(&coach_addr),
            100,
            1000000,
        )
        .unwrap();

    assert_eq!(session_id, 1);

    client
        .mark_attendance(&AuthContext::new(identity_of(&coach_addr)), session_id, true)
        .unwrap();

    client
        .complete_session(&mut env, &AuthContext::new(identity_of(&coach_addr)), session_id)
        .unwrap();

    assert_eq!(token.balance(&coach_addr), 100);
}

#[test]
fn booking_moves_the_payment_into_custody() {
    let mut f = fixture(1000);
    let client = identity_of(&f.client);
    let coach = identity_of(&f.coach);
    let auth = AuthContext::new(client);
    let issued = f.contract.create_session(&mut f.env, &auth, client, coach, 100, 1000000);
    assert_eq!(issued, Ok(1));
    assert_eq!(balance(&f, &f.client), 900);
    assert_eq!(balance(&f, &f.custodian), 100);
    assert_eq!(balance(&f, &f.coach), 0);
}

#[test]
fn booking_beyond_the_balance_is_insufficient_funds() {
    let mut f = fixture(50);
    let client = identity_of(&f.client);
    let coach = identity_of(&f.coach);
    let auth = AuthContext::new(client);
    let issued = f.contract.create_session(&mut f.env, &auth, client, coach, 100, 1000000);
    assert_eq!(issued, Err(Error::InsufficientFunds));
    assert_eq!(f.contract.session_counter(), 0);
    assert_eq!(f.contract.get_session(1), Err(Error::NotFound));
    assert_eq!(f.contract.get_client_stats(client).total_sessions, 0);
    assert_eq!(balance(&f, &f.client), 50);
    assert_eq!(balance(&f, &f.custodian), 0);
}

#[test]
fn booking_a_negative_amount_is_transfer_failed() {
    let mut f = fixture(1000);
    let client = identity_of(&f.client);
    let coach = identity_of(&f.coach);
    let auth = AuthContext::new(client);
    let issued = f.contract.create_session(&mut f.env, &auth, client, coach, -5, 1000000);
    assert_eq!(issued, Err(Error::TransferFailed));
    assert_eq!(f.contract.session_counter(), 0);
    assert_eq!(balance(&f, &f.client), 1000);
}

#[test]
fn submit_reports_what_the_ledger_did() {
    let mut f = fixture(1000);
    let request = Transfer {
        asset: identity_of(&f.token),
        from: identity_of(&f.client),
        to: identity_of(&f.coach),
        amount: 250,
    };
    assert_eq!(submit(&mut f.env, &request), Ok(()));
    assert_eq!(balance(&f, &f.client), 750);
    assert_eq!(balance(&f, &f.coach), 250);
    let too_much = Transfer { amount: 751, ..request };
    assert_eq!(submit(&mut f.env, &too_much), Err(TransferFault::Rejected(10)));
    assert_eq!(balance(&f, &f.client), 750);
    assert_eq!(balance(&f, &f.coach), 250);
}

#[test]
fn submit_aborts_when_the_asset_is_no_token() {
    let mut f = fixture(1000);
    let request = Transfer {
        asset: identity_of(&f.coach),
        from: identity_of(&f.client),
        to: identity_of(&f.coach),
        amount: 1,
    };
    assert_eq!(submit(&mut f.env, &request), Err(TransferFault::Aborted));
    let account = Transfer { asset: Identity::account([7; 32]), ..request };
    assert_eq!(submit(&mut f.env, &account), Err(TransferFault::Aborted));
    assert_eq!(balance(&f, &f.client), 1000);
}

fn book(f: &mut Fixture, amount: i128) -> Result<u64, Error> {
    let client = identity_of(&f.client);
    let coach = identity_of(&f.coach);
    f.contract.create_session(&mut f.env, &AuthContext::new(client), client, coach, amount, 1000000)
}

#[test]
fn one_session_from_booking_to_release() {
    let mut f = fixture(1000);
    let client = identity_of(&f.client);
    let coach = identity_of(&f.coach);
    assert_eq!(book(&mut f, 100), Ok(1));
    assert_eq!(f.contract.mark_attendance(&AuthContext::new(coach), 1, true), Ok(()));
    assert_eq!(f.contract.complete_session(&mut f.env, &AuthContext::new(coach), 1), Ok(()));
    assert_eq!(balance(&f, &f.coach), 100);
    assert_eq!(balance(&f, &f.custodian), 0);
    assert_eq!(balance(&f, &f.client), 900);
    assert_eq!(
        f.contract.get_session(1),
        Ok(CoachingSession {
            session_id: 1,
            client,
            coach,
            amount: 100,
            scheduled_time: 1000000,
            attended: true,
            completed: true,
        })
    );
    assert_eq!(
        f.contract.get_client_stats(client),
        ClientStats { total_sessions: 1, attended_sessions: 1, missed_sessions: 0, at_risk: false }
    );
}

#[test]
fn a_second_completion_pays_nothing() {
    let mut f = fixture(1000);
    let coach = AuthContext::new(identity_of(&f.coach));
    assert_eq!(book(&mut f, 100), Ok(1));
    assert_eq!(book(&mut f, 100), Ok(2));
    assert_eq!(f.contract.mark_attendance(&coach, 1, true), Ok(()));
    assert_eq!(f.contract.complete_session(&mut f.env, &coach, 1), Ok(()));
    assert_eq!(balance(&f, &f.coach), 100);
    assert_eq!(f.contract.complete_session(&mut f.env, &coach, 1), Err(Error::AlreadyCompleted));
    assert_eq!(f.contract.complete_session(&mut f.env, &coach, 1), Err(Error::AlreadyCompleted));
    assert_eq!(balance(&f, &f.coach), 100);
    assert_eq!(balance(&f, &f.custodian), 100);
}

#[test]
fn completion_before_attendance_is_refused() {
    let mut f = fixture(1000);
    let coach = AuthContext::new(identity_of(&f.coach));
    assert_eq!(book(&mut f, 100), Ok(1));
    assert_eq!(f.contract.complete_session(&mut f.env, &coach, 1), Err(Error::NotAttended));
    assert_eq!(f.contract.mark_attendance(&coach, 1, false), Ok(()));
    assert_eq!(f.contract.complete_session(&mut f.env, &coach, 1), Err(Error::NotAttended));
    assert_eq!(balance(&f, &f.coach), 0);
    assert_eq!(balance(&f, &f.custodian), 100);
    assert_eq!(f.contract.get_session(1).unwrap().completed, false);
}

#[test]
fn completion_by_a_stranger_is_unauthorized() {
    let mut f = fixture(1000);
    let coach = AuthContext::new(identity_of(&f.coach));
    let client = AuthContext::new(identity_of(&f.client));
    let stranger = AuthContext::new(identity_of(&Address::generate(&f.env)));
    assert_eq!(book(&mut f, 100), Ok(1));
    assert_eq!(f.contract.mark_attendance(&coach, 1, true), Ok(()));
    assert_eq!(f.contract.complete_session(&mut f.env, &stranger, 1), Err(Error::Unauthorized));
    assert_eq!(f.contract.complete_session(&mut f.env, &client, 1), Err(Error::Unauthorized));
    assert_eq!(balance(&f, &f.coach), 0);
    assert_eq!(balance(&f, &f.custodian), 100);
    assert_eq!(f.contract.get_session(1).unwrap().completed, false);
}

#[test]
fn completion_of_an_unknown_session_is_not_found() {
    let mut f = fixture(1000);
    let coach = AuthContext::new(identity_of(&f.coach));
    assert_eq!(f.contract.complete_session(&mut f.env, &coach, 1), Err(Error::NotFound));
    assert_eq!(book(&mut f, 100), Ok(1));
    assert_eq!(f.contract.complete_session(&mut f.env, &coach, 0), Err(Error::NotFound));
    assert_eq!(f.contract.complete_session(&mut f.env, &coach, 2), Err(Error::NotFound));
}

#[test]
fn booking_by_someone_else_is_unauthorized() {
    let mut f = fixture(1000);
    let client = identity_of(&f.client);
    let coach = identity_of(&f.coach);
    let auth = AuthContext::new(coach);
    let issued = f.contract.create_session(&mut f.env, &auth, client, coach, 100, 1000000);
    assert_eq!(issued, Err(Error::Unauthorized));
    assert_eq!(balance(&f, &f.client), 1000);
    assert_eq!(f.contract.session_counter(), 0);
    assert_eq!(f.contract.get_client_stats(client), ClientStats::new());
}

#[test]
fn booking_before_initialisation_is_refused() {
    let env = ledger_env();
    let mut env = env;
    let client_addr = Address::generate(&env);
    let client = identity_of(&client_addr);
    let coach = identity_of(&Address::generate(&env));
    let mut contract = CoachingContract::new(identity_of(&Address::generate(&env)));
    let auth = AuthContext::new(client);
    let issued = contract.create_session(&mut env, &auth, client, coach, 100, 1000000);
    assert_eq!(issued, Err(Error::NotInitialized));
    assert_eq!(contract.session_counter(), 0);
    assert_eq!(contract.get_session(1), Err(Error::NotFound));
}

#[test]
fn booking_with_an_asset_that_is_no_token_fails() {
    let mut env = ledger_env();
    let client = identity_of(&Address::generate(&env));
    let coach = identity_of(&Address::generate(&env));
    let mut contract = CoachingContract::new(identity_of(&Address::generate(&env)));
    assert_eq!(contract.initialize(Identity::account([9; 32])), Ok(()));
    let auth = AuthContext::new(client);
    let issued = contract.create_session(&mut env, &auth, client, coach, 100, 1000000);
    assert_eq!(issued, Err(Error::TransferFailed));
    assert_eq!(contract.session_counter(), 0);
}

#[test]
fn session_ids_count_up_from_one() {
    let mut f = fixture(1000);
    assert_eq!(f.contract.session_counter(), 0);
    assert_eq!(book(&mut f, 10), Ok(1));
    assert_eq!(book(&mut f, 20), Ok(2));
    assert_eq!(book(&mut f, 2000), Err(Error::InsufficientFunds));
    assert_eq!(book(&mut f, 30), Ok(3));
    assert_eq!(f.contract.session_counter(), 3);
    assert_eq!(f.contract.get_session(1).unwrap().amount, 10);
    assert_eq!(f.contract.get_session(2).unwrap().amount, 20);
    assert_eq!(f.contract.get_session(3).unwrap().amount, 30);
    assert_eq!(f.contract.get_session(3).unwrap().session_id, 3);
    assert_eq!(f.contract.get_session(4), Err(Error::NotFound));
    assert_eq!(balance(&f, &f.custodian), 60);
}

#[test]
fn two_misses_put_the_client_at_risk() {
    let mut f = fixture(1000);
    let client = identity_of(&f.client);
    let coach = AuthContext::new(identity_of(&f.coach));
    assert_eq!(book(&mut f, 100), Ok(1));
    assert_eq!(book(&mut f, 100), Ok(2));
    assert_eq!(book(&mut f, 100), Ok(3));
    assert_eq!(
        f.contract.get_client_stats(client),
        ClientStats { total_sessions: 3, attended_sessions: 0, missed_sessions: 0, at_risk: true }
    );
    assert_eq!(f.contract.mark_attendance(&coach, 1, true), Ok(()));
    assert_eq!(f.contract.mark_attendance(&coach, 2, true), Ok(()));
    assert_eq!(f.contract.get_client_stats(client).at_risk, false);
    assert_eq!(f.contract.mark_attendance(&coach, 1, false), Ok(()));
    assert_eq!(f.contract.get_client_stats(client).at_risk, false);
    assert_eq!(f.contract.mark_attendance(&coach, 3, false), Ok(()));
    assert_eq!(
        f.contract.get_client_stats(client),
        ClientStats { total_sessions: 3, attended_sessions: 2, missed_sessions: 2, at_risk: true }
    );
}

#[test]
fn a_failed_release_can_be_tried_again() {
    let mut f = fixture(0);
    let client = identity_of(&f.client);
    let coach_id = identity_of(&f.coach);
    let coach = AuthContext::new(coach_id);
    let mut contract =
        CoachingContract::resume(identity_of(&f.custodian), identity_of(&f.token), 1);
    assert!(contract.restore_session(CoachingSession {
        session_id: 1,
        client,
        coach: coach_id,
        amount: 100,
        scheduled_time: 5,
        attended: true,
        completed: false,
    }));
    assert_eq!(contract.complete_session(&mut f.env, &coach, 1), Err(Error::InsufficientFunds));
    assert_eq!(contract.get_session(1).unwrap().completed, false);
    assert_eq!(balance(&f, &f.coach), 0);
    StellarAssetClient::new(&f.env, &f.token).mint(&f.custodian, &100);
    assert_eq!(contract.complete_session(&mut f.env, &coach, 1), Ok(()));
    assert_eq!(contract.get_session(1).unwrap().completed, true);
    assert_eq!(balance(&f, &f.coach), 100);
    assert_eq!(balance(&f, &f.custodian), 0);
}
