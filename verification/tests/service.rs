use bet2chess::address::Address;
use bet2chess::escrow::{Payload, Transfer};
use bet2chess::services::bet2chess_service::{Bet2ChessEvents, Bet2ChessService};
use bet2chess::services::signless_service::{SignlessEvent, SignlessService};
use bet2chess::states::bet2chess_state::{Bet2ChessErrors, ChessState, GameStatus, ONE_VARA};
use bet2chess::states::signless_accounts_state::{ContractSignlessAccounts, SignlessAccount, SignlessError};

fn addr(n: u128) -> Address {
    Address { hi: 0, lo: n }
}

fn name(s: &str) -> String {
    String::from(s)
}

fn minimum_not_met(to: Address, value: u128) -> (Bet2ChessEvents, Option<Transfer>) {
    let event = Bet2ChessEvents::Error(Bet2ChessErrors::MinAmoutToBetIsOneToken);
    (event, Some(Transfer { to, amount: value, payload: Payload::Event(event) }))
}

// Signless accounts in which the key 70 acts for the user at address 1 and
// the key 80 for the user without a wallet named "guest".
fn accounts() -> ContractSignlessAccounts {
    let mut accounts = ContractSignlessAccounts::default();
    let mut service = SignlessService::new(&mut accounts);
    assert_eq!(
        service.bind_signless_data_to_address(addr(70), addr(1), SignlessAccount::default()),
        SignlessEvent::SignlessAccountSet
    );
    assert_eq!(
        service.bind_signless_data_to_no_wallet_account(addr(80), name("guest"), SignlessAccount::default()),
        SignlessEvent::SignlessAccountSet
    );
    accounts
}

#[test]
fn one_token_is_a_million_millions() {
    assert_eq!(ONE_VARA, 1_000_000_000_000);
}

#[test]
fn stake_is_the_whole_tokens_of_the_value() {
    assert_eq!(Bet2ChessService::format_bet_amout(addr(1), 0), Ok(0));
    assert_eq!(Bet2ChessService::format_bet_amout(addr(1), ONE_VARA), Ok(1));
    assert_eq!(Bet2ChessService::format_bet_amout(addr(1), ONE_VARA + ONE_VARA / 2), Ok(1));
    assert_eq!(Bet2ChessService::format_bet_amout(addr(1), 2 * ONE_VARA - 1), Ok(1));
    assert_eq!(Bet2ChessService::format_bet_amout(addr(1), 7 * ONE_VARA), Ok(7));
    assert_eq!(Bet2ChessService::format_bet_amout(addr(1), u128::MAX), Ok(340282366920938463463374607));
}

#[test]
fn less_than_one_token_is_rejected_with_the_whole_value() {
    let event = Bet2ChessEvents::Error(Bet2ChessErrors::MinAmoutToBetIsOneToken);
    assert_eq!(
        Bet2ChessService::format_bet_amout(addr(1), 1),
        Err((event, Transfer { to: addr(1), amount: 1, payload: Payload::Event(event) }))
    );
    assert_eq!(
        Bet2ChessService::format_bet_amout(addr(4), ONE_VARA - 1),
        Err((event, Transfer { to: addr(4), amount: ONE_VARA - 1, payload: Payload::Event(event) }))
    );
}

#[test]
fn send_below_the_minimum_refunds_and_creates_nothing() {
    let mut state = ChessState::default();
    let signless = ContractSignlessAccounts::default();
    let mut service = Bet2ChessService::new(&mut state, &signless);
    assert_eq!(service.send_invitation(addr(1), 999_999_999_999, 1, 2), minimum_not_met(addr(1), 999_999_999_999));
    assert_eq!(service.send_invitation(addr(1), 1, 1, 2), minimum_not_met(addr(1), 1));
    assert_eq!(service.invitation_bet(1, 2), None);
    assert!(service.invitations_from_web2_id(1).is_none());
    assert!(service.invitations_from_web2_id(2).is_none());
    assert!(state.invitations.is_empty());
    assert!(state.user_invitations.is_empty());
}

#[test]
fn send_records_the_whole_tokens() {
    let mut state = ChessState::default();
    let signless = ContractSignlessAccounts::default();
    let mut service = Bet2ChessService::new(&mut state, &signless);
    assert_eq!(
        service.send_invitation(addr(1), 5 * ONE_VARA + 3, 1, 2),
        (Bet2ChessEvents::InvitationSentTo(2), None)
    );
    assert_eq!(service.invitation_bet(1, 2), Some(5));
    assert_eq!(service.invitation_bet(2, 1), None);
    let lists = service.invitations_from_web2_id(1).unwrap();
    assert_eq!(lists.sent_invitations_to_users, vec![2]);
    assert_eq!(lists.received_invitations_from_users, Vec::<u64>::new());
    let lists = service.invitations_from_web2_id(2).unwrap();
    assert_eq!(lists.sent_invitations_to_users, Vec::<u64>::new());
    assert_eq!(lists.received_invitations_from_users, vec![1]);
}

#[test]
fn send_without_value_is_a_free_invitation() {
    let mut state = ChessState::default();
    let signless = ContractSignlessAccounts::default();
    let mut service = Bet2ChessService::new(&mut state, &signless);
    assert_eq!(service.send_invitation(addr(1), 0, 1, 2), (Bet2ChessEvents::InvitationSentTo(2), None));
    assert_eq!(service.invitation_bet(1, 2), Some(0));
    assert_eq!(service.cancel_invitation(1, 2), (Bet2ChessEvents::InvitationCancelled, None));
}

#[test]
fn duplicate_send_refunds_the_whole_tokens_in_smallest_units() {
    let mut state = ChessState::default();
    let signless = ContractSignlessAccounts::default();
    let mut service = Bet2ChessService::new(&mut state, &signless);
    assert_eq!(service.send_invitation(addr(1), 5 * ONE_VARA, 1, 2).0, Bet2ChessEvents::InvitationSentTo(2));
    let duplicate = Bet2ChessErrors::UserAlreadyInviteThePlayer(2);
    assert_eq!(
        service.send_invitation(addr(1), 7 * ONE_VARA + 12, 1, 2),
        (
            Bet2ChessEvents::Error(duplicate),
            Some(Transfer { to: addr(1), amount: 7 * ONE_VARA, payload: Payload::Error(duplicate) })
        )
    );
    assert_eq!(service.invitation_bet(1, 2), Some(5));
}

#[test]
fn cancel_refunds_in_smallest_units() {
    let mut state = ChessState::default();
    let signless = ContractSignlessAccounts::default();
    let mut service = Bet2ChessService::new(&mut state, &signless);
    assert_eq!(service.send_invitation(addr(1), 5 * ONE_VARA + 3, 1, 2).0, Bet2ChessEvents::InvitationSentTo(2));
    assert_eq!(
        service.cancel_invitation(1, 2),
        (
            Bet2ChessEvents::InvitationCancelled,
            Some(Transfer { to: addr(1), amount: 5 * ONE_VARA, payload: Payload::Refund })
        )
    );
    assert_eq!(service.invitation_bet(1, 2), None);
    assert_eq!(
        service.cancel_invitation(1, 2),
        (Bet2ChessEvents::Error(Bet2ChessErrors::UserHasNoInvitationfromTheUser(2)), None)
    );
}

#[test]
fn accept_below_the_minimum_refunds_and_changes_nothing() {
    let mut state = ChessState::default();
    let signless = ContractSignlessAccounts::default();
    let mut service = Bet2ChessService::new(&mut state, &signless);
    assert_eq!(service.send_invitation(addr(1), 2 * ONE_VARA, 1, 2).0, Bet2ChessEvents::InvitationSentTo(2));
    assert_eq!(
        service.accept_invitation(addr(2), 500, 2, 1, 100, name("white"), name("black")),
        minimum_not_met(addr(2), 500)
    );
    assert_eq!(service.invitation_bet(1, 2), Some(2));
    assert!(service.game_data(100).is_none());
}

#[test]
fn accept_with_another_stake_is_rejected() {
    let mut state = ChessState::default();
    let signless = ContractSignlessAccounts::default();
    let mut service = Bet2ChessService::new(&mut state, &signless);
    assert_eq!(service.send_invitation(addr(1), 3 * ONE_VARA, 1, 2).0, Bet2ChessEvents::InvitationSentTo(2));
    let error = Bet2ChessErrors::BetIsNotTheSameForMatch { game_bet: 3, bet_by_user: 5 };
    assert_eq!(
        service.accept_invitation(addr(2), 5 * ONE_VARA + 1, 2, 1, 100, name("white"), name("black")),
        (
            Bet2ChessEvents::Error(error),
            Some(Transfer { to: addr(2), amount: 5 * ONE_VARA, payload: Payload::Error(error) })
        )
    );
    assert_eq!(service.invitation_bet(1, 2), Some(3));
    assert!(service.game_data(100).is_none());
    assert!(service.games_id_waiting().is_empty());
}

#[test]
fn accept_creates_the_match_and_end_pays_the_pot() {
    let mut state = ChessState::default();
    let signless = ContractSignlessAccounts::default();
    let mut service = Bet2ChessService::new(&mut state, &signless);
    assert_eq!(service.send_invitation(addr(1), 2 * ONE_VARA, 1, 2).0, Bet2ChessEvents::InvitationSentTo(2));
    assert_eq!(
        service.accept_invitation(addr(2), 2 * ONE_VARA + 999, 2, 1, 100, name("white"), name("black")),
        (Bet2ChessEvents::GameCreated(100), None)
    );
    let game = service.game_data(100).unwrap();
    assert_eq!(game.status, GameStatus::Started);
    assert_eq!(game.game_bet, 2);
    assert_eq!(game.player1, addr(1));
    assert_eq!(game.player2, addr(2));
    assert_eq!(game.player1_username, "white");
    assert_eq!(game.player2_username, "black");
    assert_eq!(service.invitation_bet(1, 2), None);
    assert_eq!(service.games_id_waiting(), vec![100]);
    assert_eq!(service.games_id_started(), vec![100]);
    assert_eq!(service.games_id_ended(), Vec::<u64>::new());
    let prize = Transfer { to: addr(2), amount: 4 * ONE_VARA, payload: Payload::Event(Bet2ChessEvents::Price) };
    assert_eq!(service.end_match(100, Some(addr(2))), (Bet2ChessEvents::GameEnded(100), Some(prize)));
    assert_eq!(service.game_data(100).unwrap().status, GameStatus::Ended { winner: Some(addr(2)) });
    assert_eq!(service.end_game_by_id(100, None), (Bet2ChessEvents::GameEnded(100), None));
    assert_eq!(service.game_data(100).unwrap().status, GameStatus::Ended { winner: None });
    assert_eq!(service.games_id_ended(), Vec::<u64>::new());
}

#[test]
fn end_of_a_missing_match_is_an_error_event() {
    let mut state = ChessState::default();
    let signless = ContractSignlessAccounts::default();
    let mut service = Bet2ChessService::new(&mut state, &signless);
    let error = Bet2ChessEvents::Error(Bet2ChessErrors::GameIdDoesNotExists(3));
    assert_eq!(service.end_match(3, Some(addr(1))), (error, None));
    assert_eq!(service.end_game_by_id(3, None), (error, None));
}

#[test]
fn end_game_by_id_pays_the_pot() {
    let mut state = ChessState::default();
    state.create_match(addr(1), name("white"), 1, 4, 100);
    assert_eq!(state.join_match(addr(2), name("black"), 2, 4, 100), (Ok(()), None));
    let signless = ContractSignlessAccounts::default();
    let mut service = Bet2ChessService::new(&mut state, &signless);
    let prize = Transfer { to: addr(1), amount: 8 * ONE_VARA, payload: Payload::Event(Bet2ChessEvents::Price) };
    assert_eq!(service.end_game_by_id(100, Some(addr(1))), (Bet2ChessEvents::GameEnded(100), Some(prize)));
    assert_eq!(service.game_data(100).unwrap().status, GameStatus::Ended { winner: Some(addr(1)) });
}

#[test]
fn all_games_come_in_the_order_of_their_identifiers() {
    let mut state = ChessState::default();
    for id in [30u64, 10, 20] {
        state.create_match(addr(id as u128), name("p"), id, id as u128, id);
    }
    let signless = ContractSignlessAccounts::default();
    let service = Bet2ChessService::new(&mut state, &signless);
    let games = service.all_games();
    assert_eq!(games.len(), 3);
    assert_eq!(games[0].0, 10);
    assert_eq!(games[1].0, 20);
    assert_eq!(games[2].0, 30);
    assert_eq!(games[0].1.game_bet, 10);
    assert_eq!(games[1].1.player1, addr(20));
    assert_eq!(games[2].1.player1_web2_id, 30);
    assert_eq!(games[2].1.player1_username, "p");
    assert_eq!(service.games_id_waiting(), vec![30, 10, 20]);
    assert!(service.game_data(11).is_none());
}

#[test]
fn the_sent_list_holds_every_invited_user_once() {
    let mut state = ChessState::default();
    let signless = ContractSignlessAccounts::default();
    let mut service = Bet2ChessService::new(&mut state, &signless);
    for guest in [40u64, 7, 19, 3, 40, 7] {
        let _ = service.send_invitation(addr(1), 0, 1, guest);
    }
    let mut sent = service.invitations_from_web2_id(1).unwrap().sent_invitations_to_users;
    sent.sort();
    assert_eq!(sent, vec![3, 7, 19, 40]);
}

#[test]
fn signless_send_needs_the_key_of_the_user() {
    let mut state = ChessState::default();
    let signless = accounts();
    let mut service = Bet2ChessService::new(&mut state, &signless);
    assert_eq!(
        service.send_invitation_signless(addr(70), 2 * ONE_VARA, addr(5), 1, 2),
        (Bet2ChessEvents::SignlessError(SignlessError::UserDoesNotHasSignlessAccount), None)
    );
    assert_eq!(
        service.send_invitation_signless(addr(71), 2 * ONE_VARA, addr(1), 1, 2),
        (Bet2ChessEvents::SignlessError(SignlessError::SessionHasInvalidSignlessAccount), None)
    );
    assert_eq!(service.invitation_bet(1, 2), None);
    assert!(service.invitations_from_web2_id(1).is_none());
    assert_eq!(
        service.send_invitation_signless(addr(70), 2 * ONE_VARA, addr(1), 1, 2),
        (Bet2ChessEvents::InvitationSentTo(2), None)
    );
    assert_eq!(service.invitation_bet(1, 2), Some(2));
    // The stake belongs to the user, not to the key.
    assert_eq!(
        service.cancel_invitation(1, 2),
        (
            Bet2ChessEvents::InvitationCancelled,
            Some(Transfer { to: addr(1), amount: 2 * ONE_VARA, payload: Payload::Refund })
        )
    );
}

#[test]
fn signless_send_below_the_minimum_refunds_the_user() {
    let mut state = ChessState::default();
    let signless = accounts();
    let mut service = Bet2ChessService::new(&mut state, &signless);
    assert_eq!(service.send_invitation_signless(addr(70), 17, addr(1), 1, 2), minimum_not_met(addr(1), 17));
    assert_eq!(
        service.send_invitation_signless(addr(71), 17, addr(1), 1, 2),
        (Bet2ChessEvents::SignlessError(SignlessError::SessionHasInvalidSignlessAccount), None)
    );
}

#[test]
fn no_wallet_send_needs_the_key_of_the_name() {
    let mut state = ChessState::default();
    let signless = accounts();
    let mut service = Bet2ChessService::new(&mut state, &signless);
    assert_eq!(
        service.send_invitation_signless_no_wallet(addr(80), 2 * ONE_VARA, name("nobody"), 1, 2),
        (Bet2ChessEvents::SignlessError(SignlessError::UserDoesNotHasSignlessAccount), None)
    );
    assert_eq!(
        service.send_invitation_signless_no_wallet(addr(70), 2 * ONE_VARA, name("guest"), 1, 2),
        (Bet2ChessEvents::SignlessError(SignlessError::SessionHasInvalidSignlessAccount), None)
    );
    assert_eq!(service.invitation_bet(1, 2), None);
    assert_eq!(
        service.send_invitation_signless_no_wallet(addr(80), 2 * ONE_VARA, name("guest"), 1, 2),
        (Bet2ChessEvents::InvitationSentTo(2), None)
    );
    // Without a wallet the stake goes back to the key.
    assert_eq!(
        service.cancel_invitation(1, 2),
        (
            Bet2ChessEvents::InvitationCancelled,
            Some(Transfer { to: addr(80), amount: 2 * ONE_VARA, payload: Payload::Refund })
        )
    );
    assert_eq!(
        service.send_invitation_signless_no_wallet(addr(80), 5, name("guest"), 1, 2),
        minimum_not_met(addr(80), 5)
    );
}

#[test]
fn signless_cancel_needs_the_key() {
    let mut state = ChessState::default();
    let signless = accounts();
    let mut service = Bet2ChessService::new(&mut state, &signless);
    assert_eq!(service.send_invitation(addr(1), 3 * ONE_VARA, 1, 2).0, Bet2ChessEvents::InvitationSentTo(2));
    assert_eq!(
        service.cancel_invitation_signless(addr(71), addr(1), 1, 2),
        (Bet2ChessEvents::SignlessError(SignlessError::SessionHasInvalidSignlessAccount), None)
    );
    assert_eq!(
        service.cancel_invitation_signless_no_wallet(addr(80), name("nobody"), 1, 2),
        (Bet2ChessEvents::SignlessError(SignlessError::UserDoesNotHasSignlessAccount), None)
    );
    assert_eq!(service.invitation_bet(1, 2), Some(3));
    assert_eq!(
        service.cancel_invitation_signless(addr(70), addr(1), 1, 2),
        (
            Bet2ChessEvents::InvitationCancelled,
            Some(Transfer { to: addr(1), amount: 3 * ONE_VARA, payload: Payload::Refund })
        )
    );
    assert_eq!(service.send_invitation(addr(1), ONE_VARA, 1, 2).0, Bet2ChessEvents::InvitationSentTo(2));
    assert_eq!(
        service.cancel_invitation_signless_no_wallet(addr(80), name("guest"), 1, 2),
        (
            Bet2ChessEvents::InvitationCancelled,
            Some(Transfer { to: addr(1), amount: ONE_VARA, payload: Payload::Refund })
        )
    );
    assert_eq!(service.invitation_bet(1, 2), None);
}

#[test]
fn signless_accept_plays_as_the_user() {
    let mut state = ChessState::default();
    let signless = accounts();
    let mut service = Bet2ChessService::new(&mut state, &signless);
    assert_eq!(service.send_invitation(addr(9), ONE_VARA, 9, 1).0, Bet2ChessEvents::InvitationSentTo(1));
    assert_eq!(
        service.accept_invitation_signless(addr(71), ONE_VARA, addr(1), 1, 9, 100, name("white"), name("black")),
        (Bet2ChessEvents::SignlessError(SignlessError::SessionHasInvalidSignlessAccount), None)
    );
    assert_eq!(service.invitation_bet(9, 1), Some(1));
    assert!(service.game_data(100).is_none());
    assert_eq!(
        service.accept_invitation_signless(addr(70), ONE_VARA, addr(1), 1, 9, 100, name("white"), name("black")),
        (Bet2ChessEvents::GameCreated(100), None)
    );
    let game = service.game_data(100).unwrap();
    assert_eq!(game.player1, addr(9));
    assert_eq!(game.player2, addr(1));
    assert_eq!(game.status, GameStatus::Started);
}

#[test]
fn no_wallet_accept_plays_as_the_key() {
    let mut state = ChessState::default();
    let signless = accounts();
    let mut service = Bet2ChessService::new(&mut state, &signless);
    assert_eq!(service.send_invitation(addr(9), ONE_VARA, 9, 1).0, Bet2ChessEvents::InvitationSentTo(1));
    assert_eq!(
        service.accept_invitation_signless_no_wallet(
            addr(70),
            ONE_VARA,
            name("guest"),
            1,
            9,
            100,
            name("white"),
            name("black")
        ),
        (Bet2ChessEvents::SignlessError(SignlessError::SessionHasInvalidSignlessAccount), None)
    );
    assert_eq!(
        service.accept_invitation_signless_no_wallet(
            addr(80),
            ONE_VARA,
            name("guest"),
            1,
            9,
            100,
            name("white"),
            name("black")
        ),
        (Bet2ChessEvents::GameCreated(100), None)
    );
    let game = service.game_data(100).unwrap();
    assert_eq!(game.player1, addr(9));
    assert_eq!(game.player2, addr(80));
    assert_eq!(game.player2_web2_id, 1);
}

#[test]
fn the_largest_stake_that_can_be_refunded() {
    let largest: u128 = u128::MAX / ONE_VARA;
    let mut state = ChessState::default();
    assert_eq!(state.create_invitation_with_bet(addr(1), 1, 2, largest), (Ok(()), None));
    assert_eq!(state.create_invitation_with_bet(addr(1), 1, 3, largest + 1), (Ok(()), None));
    let signless = ContractSignlessAccounts::default();
    let mut service = Bet2ChessService::new(&mut state, &signless);
    assert!(service.can_refund(1, 2));
    assert!(!service.can_refund(1, 3));
    assert!(service.can_refund(1, 4));
    assert_eq!(
        service.cancel_invitation(1, 2),
        (
            Bet2ChessEvents::InvitationCancelled,
            Some(Transfer { to: addr(1), amount: 340282366920938463463374607000000000000, payload: Payload::Refund })
        )
    );
    assert_eq!(
        service.cancel_invitation(1, 4),
        (Bet2ChessEvents::Error(Bet2ChessErrors::UserHasNoInvitationfromTheUser(4)), None)
    );
}

#[test]
fn the_largest_pot_that_can_be_paid() {
    let largest: u128 = u128::MAX / ONE_VARA / 2;
    let mut state = ChessState::default();
    state.create_match(addr(1), name("white"), 1, largest, 100);
    state.create_match(addr(1), name("white"), 1, largest + 1, 101);
    state.create_match(addr(1), name("white"), 1, u128::MAX, 102);
    let signless = ContractSignlessAccounts::default();
    let mut service = Bet2ChessService::new(&mut state, &signless);
    assert!(service.can_pay_prize(100));
    assert!(!service.can_pay_prize(101));
    assert!(!service.can_pay_prize(102));
    assert!(service.can_pay_prize(103));
    let prize = Transfer {
        to: addr(1),
        amount: 340282366920938463463374606000000000000,
        payload: Payload::Event(Bet2ChessEvents::Price),
    };
    assert_eq!(service.end_match(100, Some(addr(1))), (Bet2ChessEvents::GameEnded(100), Some(prize)));
    // Without a winner nothing is paid, so any match can be ended.
    assert_eq!(service.end_match(101, None), (Bet2ChessEvents::GameEnded(101), None));
    assert_eq!(service.end_game_by_id(102, None), (Bet2ChessEvents::GameEnded(102), None));
}
