use bet2chess::address::Address;
use bet2chess::program::Bet2ChessProgram;
use bet2chess::services::bet2chess_service::Bet2ChessEvents;
use bet2chess::services::query_service::{QueryEvent, QueryService};
use bet2chess::services::signless_service::{SignlessEvent, SignlessService};
use bet2chess::states::bet2chess_state::{ChessState, ONE_VARA};
use bet2chess::states::signless_accounts_state::{ContractSignlessAccounts, SignlessAccount, SignlessError};

fn addr(n: u128) -> Address {
    Address { hi: n, lo: n + 1 }
}

fn name(s: &str) -> String {
    String::from(s)
}

fn account(address: &str, encoded: &str) -> SignlessAccount {
    SignlessAccount { address: name(address), encoded: name(encoded) }
}

fn bound_address(event: QueryEvent) -> Option<Address> {
    match event {
        QueryEvent::SignlessAccountAddress(found) => found,
        _ => panic!("another answer"),
    }
}

fn stored_data(event: QueryEvent) -> Option<(String, String)> {
    match event {
        QueryEvent::SignlessAccountData(found) => found.map(|data| (data.address, data.encoded)),
        _ => panic!("another answer"),
    }
}

#[test]
fn the_key_of_an_address_is_its_two_halves() {
    assert_eq!(Address { hi: 3, lo: 4 }.to_key(), (3, 4));
    assert_eq!(Address::zero().to_key(), (0, 0));
}

#[test]
fn default_account_is_empty() {
    let data = SignlessAccount::default();
    assert_eq!(data.address, "");
    assert_eq!(data.encoded, "");
    let copy = account("a", "b").clone();
    assert_eq!(copy.address, "a");
    assert_eq!(copy.encoded, "b");
}

#[test]
fn check_by_address_tells_the_three_cases_apart() {
    let mut accounts = ContractSignlessAccounts::default();
    assert_eq!(
        accounts.check_signless_address_by_user_address(addr(70), addr(1)),
        Err(SignlessError::UserDoesNotHasSignlessAccount)
    );
    assert_eq!(accounts.set_signless_account_to_user_address(addr(70), addr(1), account("k", "e")), Ok(()));
    assert_eq!(accounts.check_signless_address_by_user_address(addr(70), addr(1)), Ok(()));
    assert_eq!(
        accounts.check_signless_address_by_user_address(addr(71), addr(1)),
        Err(SignlessError::SessionHasInvalidSignlessAccount)
    );
    assert_eq!(
        accounts.check_signless_address_by_user_address(addr(70), addr(2)),
        Err(SignlessError::UserDoesNotHasSignlessAccount)
    );
    assert_eq!(
        accounts.check_signless_address_by_user_address(addr(1), addr(70)),
        Err(SignlessError::UserDoesNotHasSignlessAccount)
    );
}

#[test]
fn addresses_that_differ_in_one_half_are_different_users() {
    let mut accounts = ContractSignlessAccounts::default();
    let user = Address { hi: 1, lo: 2 };
    assert_eq!(accounts.set_signless_account_to_user_address(addr(70), user, account("k", "e")), Ok(()));
    assert_eq!(accounts.check_signless_address_by_user_address(addr(70), user), Ok(()));
    assert_eq!(
        accounts.check_signless_address_by_user_address(addr(70), Address { hi: 1, lo: 3 }),
        Err(SignlessError::UserDoesNotHasSignlessAccount)
    );
    assert_eq!(
        accounts.check_signless_address_by_user_address(addr(70), Address { hi: 2, lo: 2 }),
        Err(SignlessError::UserDoesNotHasSignlessAccount)
    );
    assert_eq!(
        accounts.check_signless_address_by_user_address(Address { hi: 70, lo: 70 }, user),
        Err(SignlessError::SessionHasInvalidSignlessAccount)
    );
}

#[test]
fn check_by_name_tells_the_three_cases_apart() {
    let mut accounts = ContractSignlessAccounts::default();
    assert_eq!(
        accounts.check_signless_address_by_no_wallet_account(addr(80), name("guest")),
        Err(SignlessError::UserDoesNotHasSignlessAccount)
    );
    assert_eq!(accounts.set_signless_account_to_no_wallet_name(addr(80), name("guest"), account("k", "e")), Ok(()));
    assert_eq!(accounts.check_signless_address_by_no_wallet_account(addr(80), name("guest")), Ok(()));
    assert_eq!(
        accounts.check_signless_address_by_no_wallet_account(addr(81), name("guest")),
        Err(SignlessError::SessionHasInvalidSignlessAccount)
    );
    assert_eq!(
        accounts.check_signless_address_by_no_wallet_account(addr(80), name("gues")),
        Err(SignlessError::UserDoesNotHasSignlessAccount)
    );
    assert_eq!(
        accounts.check_signless_address_by_no_wallet_account(addr(80), name("")),
        Err(SignlessError::UserDoesNotHasSignlessAccount)
    );
    assert_eq!(accounts.signless_address_of_name(&name("guest")), Some(addr(80)));
    assert_eq!(accounts.signless_address_of_name(&name("Guest")), None);
}

#[test]
fn a_user_address_is_bound_once() {
    let mut accounts = ContractSignlessAccounts::default();
    assert_eq!(accounts.set_signless_account_to_user_address(addr(70), addr(1), account("k", "e")), Ok(()));
    assert_eq!(
        accounts.set_signless_account_to_user_address(addr(71), addr(1), account("x", "y")),
        Err(SignlessError::UserAddressAlreadyExists)
    );
    assert_eq!(accounts.check_signless_address_by_user_address(addr(70), addr(1)), Ok(()));
    assert_eq!(accounts.signless_data_by_signless_address.len(), 1);
    assert!(!accounts.signless_data_by_signless_address.contains_key(&addr(71).to_key()));
}

#[test]
fn a_signless_address_is_used_once() {
    let mut accounts = ContractSignlessAccounts::default();
    assert_eq!(accounts.set_signless_account_to_user_address(addr(70), addr(1), account("k", "e")), Ok(()));
    assert_eq!(
        accounts.set_signless_account_to_user_address(addr(70), addr(2), account("x", "y")),
        Err(SignlessError::SignlessAddressAlreadyEsists)
    );
    assert_eq!(
        accounts.set_signless_account_to_no_wallet_name(addr(70), name("guest"), account("x", "y")),
        Err(SignlessError::SignlessAddressAlreadyEsists)
    );
    assert_eq!(
        accounts.check_signless_address_by_user_address(addr(70), addr(2)),
        Err(SignlessError::UserDoesNotHasSignlessAccount)
    );
    assert_eq!(accounts.signless_address_of_name(&name("guest")), None);
    assert_eq!(accounts.signless_data_by_signless_address[&addr(70).to_key()].address, "k");
}

#[test]
fn a_name_is_bound_once() {
    let mut accounts = ContractSignlessAccounts::default();
    assert_eq!(accounts.set_signless_account_to_no_wallet_name(addr(80), name("guest"), account("k", "e")), Ok(()));
    assert_eq!(
        accounts.set_signless_account_to_no_wallet_name(addr(81), name("guest"), account("x", "y")),
        Err(SignlessError::NoWalletAccountAlreadyExists)
    );
    assert_eq!(accounts.set_signless_account_to_no_wallet_name(addr(81), name("other"), account("x", "y")), Ok(()));
    assert_eq!(accounts.signless_address_of_name(&name("guest")), Some(addr(80)));
    assert_eq!(accounts.signless_address_of_name(&name("other")), Some(addr(81)));
    assert_eq!(accounts.signless_accounts_address_by_no_wallet_name.len(), 2);
}

#[test]
fn add_data_replaces_what_was_stored() {
    let mut accounts = ContractSignlessAccounts::default();
    accounts.add_signless_data_to_state(addr(70), account("k", "e"));
    accounts.add_signless_data_to_state(addr(70), account("k2", "e2"));
    assert_eq!(accounts.signless_data_by_signless_address.len(), 1);
    assert_eq!(accounts.signless_data_by_signless_address[&addr(70).to_key()].address, "k2");
    assert_eq!(accounts.signless_data_by_signless_address[&addr(70).to_key()].encoded, "e2");
    assert!(accounts.signless_accounts_address_by_user_address.is_empty());
}

#[test]
fn binding_reports_an_event() {
    let mut accounts = ContractSignlessAccounts::default();
    let mut service = SignlessService::new(&mut accounts);
    assert_eq!(
        service.bind_signless_data_to_address(addr(70), addr(1), account("k", "e")),
        SignlessEvent::SignlessAccountSet
    );
    assert_eq!(
        service.bind_signless_data_to_address(addr(71), addr(1), account("k", "e")),
        SignlessEvent::Error(SignlessError::UserAddressAlreadyExists)
    );
    assert_eq!(
        service.bind_signless_data_to_address(addr(70), addr(2), account("k", "e")),
        SignlessEvent::Error(SignlessError::SignlessAddressAlreadyEsists)
    );
    assert_eq!(
        service.bind_signless_data_to_no_wallet_account(addr(80), name("guest"), account("k", "e")),
        SignlessEvent::SignlessAccountSet
    );
    assert_eq!(
        service.bind_signless_data_to_no_wallet_account(addr(81), name("guest"), account("k", "e")),
        SignlessEvent::Error(SignlessError::NoWalletAccountAlreadyExists)
    );
    assert_eq!(
        service.bind_signless_data_to_no_wallet_account(addr(80), name("other"), account("k", "e")),
        SignlessEvent::Error(SignlessError::SignlessAddressAlreadyEsists)
    );
    assert_eq!(accounts.check_signless_address_by_user_address(addr(70), addr(1)), Ok(()));
    assert_eq!(accounts.check_signless_address_by_no_wallet_account(addr(80), name("guest")), Ok(()));
}

#[test]
fn queries_answer_from_the_accounts() {
    let state = ChessState::default();
    let mut accounts = ContractSignlessAccounts::default();
    assert_eq!(accounts.set_signless_account_to_user_address(addr(70), addr(1), account("k", "e")), Ok(()));
    assert_eq!(accounts.set_signless_account_to_no_wallet_name(addr(80), name("guest"), account("n", "w")), Ok(()));
    let service = QueryService::new(&state, &accounts);
    assert_eq!(bound_address(service.signless_address_from_user_address(addr(1))), Some(addr(70)));
    assert_eq!(bound_address(service.signless_address_from_user_address(addr(2))), None);
    assert_eq!(bound_address(service.signless_address_from_no_wallet_account(name("guest"))), Some(addr(80)));
    assert_eq!(bound_address(service.signless_address_from_no_wallet_account(name("nobody"))), None);
    assert_eq!(stored_data(service.signless_account_data(addr(70))), Some((name("k"), name("e"))));
    assert_eq!(stored_data(service.signless_account_data(addr(80))), Some((name("n"), name("w"))));
    assert_eq!(stored_data(service.signless_account_data(addr(1))), None);
}

#[test]
fn the_program_starts_empty_with_its_creator_as_administrator() {
    let program = Bet2ChessProgram::new(addr(5));
    assert_eq!(program.bet2chess_state.admins, vec![addr(5)]);
    assert!(program.bet2chess_state.games_by_id.is_empty());
    assert!(program.bet2chess_state.invitations.is_empty());
    assert!(program.bet2chess_state.user_invitations.is_empty());
    assert!(program.bet2chess_state.games_waiting.is_empty());
    assert!(program.bet2chess_state.games_started.is_empty());
    assert!(program.bet2chess_state.finished_games.is_empty());
    assert!(program.bet2chess_state.games_by_web2_id.is_empty());
    assert_eq!(program.bet2chess_state.current_game_id, 0);
    assert!(program.signless_state.signless_accounts_address_by_user_address.is_empty());
    assert!(program.signless_state.signless_accounts_address_by_no_wallet_name.is_empty());
    assert!(program.signless_state.signless_data_by_signless_address.is_empty());
}

#[test]
fn the_services_of_a_program_work_on_its_state() {
    let mut program = Bet2ChessProgram::new(addr(5));
    assert_eq!(
        program.signless_svc().bind_signless_data_to_address(addr(70), addr(1), account("k", "e")),
        SignlessEvent::SignlessAccountSet
    );
    assert_eq!(
        program.bet2chess_svc().send_invitation_signless(addr(70), 2 * ONE_VARA, addr(1), 1, 2),
        (Bet2ChessEvents::InvitationSentTo(2), None)
    );
    assert_eq!(program.bet2chess_svc().invitation_bet(1, 2), Some(2));
    assert_eq!(program.bet2chess_state.invitations.get(&(1, 2)), Some(&2));
    assert_eq!(bound_address(program.query_svc().signless_address_from_user_address(addr(1))), Some(addr(70)));
    assert_eq!(stored_data(program.query_svc().signless_account_data(addr(70))), Some((name("k"), name("e"))));
}
