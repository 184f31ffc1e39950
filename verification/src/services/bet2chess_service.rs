//! Invitations and matches as callers see them.
//!
//! A call carries the address it came from and the value attached to it, in
//! smallest units. Stakes are whole tokens: the attached value divided by
//! [`ONE_VARA`], the remainder dropped. Every operation answers with an event
//! and with the transfer that its caller has to perform, in smallest units.

use crate::address::Address;
use crate::escrow::{Payload, Transfer};
use crate::ordered::{ascending, ids_of, keys_in_order, records_in_order};
use crate::states::bet2chess_state::{Bet2ChessErrors, BetAmout, ChessState, GameData, GameId, ONE_VARA};
use crate::states::ledger::Ledger;
use crate::states::signless_accounts_state::{ContractSignlessAccounts, SignlessError};
use vstd::prelude::*;

verus! {

/// What an operation reports back to its caller.
#[derive(Clone, Copy, Debug, PartialEq, Eq, Structural)]
pub enum Bet2ChessEvents {
    PlayingInMatch(GameId),
    SignlessError(SignlessError),
    Error(Bet2ChessErrors),
    GameCreated(GameId),
    JoinedInGame(GameId),
    GameEnded(GameId),
    InvitationSentTo(u64),
    InvitationCancelled,
    Price,
}

/// The invitations of one user, as lists of the other users' identities.
#[derive(Debug)]
pub struct InvitationsState {
    pub received_invitations_from_users: Vec<u64>,
    pub sent_invitations_to_users: Vec<u64>,
}

impl Default for InvitationsState {
    fn default() -> (s: InvitationsState)
        ensures
            s.received_invitations_from_users@ == Seq::<u64>::empty(),
            s.sent_invitations_to_users@ == Seq::<u64>::empty(),
    {
        InvitationsState { received_invitations_from_users: Vec::new(), sent_invitations_to_users: Vec::new() }
    }
}

/// What a call does: the state it leaves, the event it answers with, and the
/// transfer it asks for.
pub struct Served {
    pub next: Ledger,
    pub event: Bet2ChessEvents,
    pub transfer: Option<Transfer>,
}

/// The stake that an attached value stands for: its whole tokens.
pub open spec fn stake_of(value: u128) -> u128 {
    (value / ONE_VARA) as u128
}

/// Whether a value is attached that is less than one whole token.
pub open spec fn below_minimum(value: u128) -> bool {
    0 < value < ONE_VARA
}

/// Whether the amount of a transfer, counted in whole tokens, can be
/// written in smallest units.
pub open spec fn payable(transfer: Option<Transfer>) -> bool {
    transfer is Some ==> transfer->0.amount * ONE_VARA <= u128::MAX
}

/// The same transfer with its amount in smallest units instead of whole
/// tokens.
pub open spec fn in_smallest_units(transfer: Option<Transfer>) -> Option<Transfer> {
    match transfer {
        Some(t) => Some(Transfer { amount: (t.amount * ONE_VARA) as u128, ..t }),
        None => None,
    }
}

/// The event for the result of an operation: `done` where it succeeded, the
/// error where it did not.
pub open spec fn event_for<T>(result: Result<T, Bet2ChessErrors>, done: Bet2ChessEvents) -> Bet2ChessEvents {
    match result {
        Ok(_) => done,
        Err(error) => Bet2ChessEvents::Error(error),
    }
}

/// A call that is turned down because its sender may not act for the user:
/// nothing changes and nothing is transferred.
pub open spec fn refused(l: Ledger, error: SignlessError) -> Served {
    Served { next: l, event: Bet2ChessEvents::SignlessError(error), transfer: None }
}

/// A call that is turned down because less than one whole token is attached:
/// nothing changes, and all of the attached value goes back to `caller`.
pub open spec fn minimum_not_met(l: Ledger, caller: Address, value: u128) -> Served {
    let event = Bet2ChessEvents::Error(Bet2ChessErrors::MinAmoutToBetIsOneToken);
    Served { next: l, event, transfer: Some(Transfer { to: caller, amount: value, payload: Payload::Event(event) }) }
}

/// Withdrawing the invitation from `first` to `second`.
pub open spec fn serve_cancel(l: Ledger, first: u64, second: u64) -> Served {
    let step = l.cancel_invitation(first, second);
    Served {
        next: step.next,
        event: event_for(step.result, Bet2ChessEvents::InvitationCancelled),
        transfer: in_smallest_units(step.transfer),
    }
}

/// Sending an invitation from `user_id`, whose address is `from`, to
/// `guest_id`, with `value` attached.
pub open spec fn serve_send(l: Ledger, from: Address, user_id: u64, guest_id: u64, value: u128) -> Served {
    if below_minimum(value) {
        minimum_not_met(l, from, value)
    } else {
        let step = l.create_invitation(from, user_id, guest_id, stake_of(value));
        Served {
            next: step.next,
            event: event_for(step.result, Bet2ChessEvents::InvitationSentTo(guest_id)),
            transfer: in_smallest_units(step.transfer),
        }
    }
}

/// Accepting, as `user_id` with the address `from`, the invitation of
/// `inviter`, with `value` attached.
pub open spec fn serve_accept(
    l: Ledger,
    from: Address,
    user_id: u64,
    inviter: u64,
    game_id: u64,
    inviter_name: Seq<char>,
    own_name: Seq<char>,
    value: u128,
) -> Served {
    if below_minimum(value) {
        minimum_not_met(l, from, value)
    } else {
        let step = l.accept_invitation(from, user_id, inviter, game_id, inviter_name, own_name, stake_of(value));
        Served {
            next: step.next,
            event: event_for(step.result, Bet2ChessEvents::GameCreated(game_id)),
            transfer: in_smallest_units(step.transfer),
        }
    }
}

/// Ending the match at `game_id`.
pub open spec fn serve_end(l: Ledger, game_id: u64, winner: Option<Address>) -> Served {
    let step = l.end_match(game_id, winner);
    Served {
        next: step.next,
        event: event_for(step.result, Bet2ChessEvents::GameEnded(game_id)),
        transfer: in_smallest_units(step.transfer),
    }
}

/// What a call does that is made for another user: it is refused where the
/// check of the caller failed, and served otherwise.
pub open spec fn checked(check: Result<(), SignlessError>, l: Ledger, served: Served) -> Served {
    match check {
        Err(error) => refused(l, error),
        Ok(_) => served,
    }
}

/// Whether the stake of the invitation from `first` to `second`, if one is
/// recorded, can be written in smallest units.
pub open spec fn refund_is_payable(l: Ledger, first: u64, second: u64) -> bool {
    l.has_stake(first, second) ==> l.invitations[(first, second)] * ONE_VARA <= u128::MAX
}

/// Whether the pot of the match at `game_id`, if there is such a match, can
/// be written in smallest units.
pub open spec fn prize_is_payable(l: Ledger, game_id: u64) -> bool {
    l.games_by_id.contains_key(game_id) ==> 2 * l.games_by_id[game_id].game_bet * ONE_VARA <= u128::MAX
}

/// Writes the amount of a transfer in smallest units.
fn to_smallest_units(transfer: Option<Transfer>) -> (raw: Option<Transfer>)
    requires
        payable(transfer),
    ensures
        raw == in_smallest_units(transfer),
{
    match transfer {
        Some(t) => Some(Transfer { to: t.to, amount: t.amount * ONE_VARA, payload: t.payload }),
        None => None,
    }
}

/// A stake taken from an attached value can be written in smallest units
/// again.
proof fn stake_is_payable(value: u128, to: Address, payload: Payload)
    ensures
        stake_of(value) * ONE_VARA <= value,
        payable(crate::escrow::refund_of(to, stake_of(value), payload)),
{
    assert(stake_of(value) * ONE_VARA <= value) by (nonlinear_arith)
        requires
            stake_of(value) == value / ONE_VARA,
            ONE_VARA == 1_000_000_000_000,
    ;
}

/// The operations on invitations and matches, on the state they work on and
/// the signless accounts they check callers against.
pub struct Bet2ChessService<'a> {
    pub state: &'a mut ChessState,
    pub signless_state_ref: &'a ContractSignlessAccounts,
}

impl<'a> Bet2ChessService<'a> {
    /// The state of invitations and matches that the service works on.
    pub open spec fn ledger(&self) -> Ledger {
        self.state@
    }

    /// The service on the given state.
    pub fn new(state: &'a mut ChessState, signless_state_ref: &'a ContractSignlessAccounts) -> (service: Self)
        ensures
            *service.state == *old(state),
            *final(state) == *final(service.state),
            service.signless_state_ref == signless_state_ref,
    {
        Self { state, signless_state_ref }
    }

    /// The stake of the pending invitation from `first_web2_id` to
    /// `second_web2_id`, if there is one.
    pub fn invitation_bet(&self, first_web2_id: u64, second_web2_id: u64) -> (bet: Option<u128>)
        ensures
            bet == self.ledger().invitations.get((first_web2_id, second_web2_id)),
    {
        match self.state.invitations.get(&(first_web2_id, second_web2_id)) {
            Some(bet) => Some(*bet),
            None => None,
        }
    }

    /// The invitations of `web2_id`, if the user has a record: the users it
    /// has invited, each once and in no particular order, and the users that
    /// have invited it, smallest identity first.
    pub fn invitations_from_web2_id(&self, web2_id: u64) -> (found: Option<InvitationsState>)
        ensures
            found is Some == self.ledger().user_invitations.contains_key(web2_id),
            found is Some ==> {
                let record = self.ledger().user_invitations[web2_id];
                let lists = found->0;
                &&& lists.sent_invitations_to_users@.no_duplicates()
                &&& lists.sent_invitations_to_users@.to_set() == record.sent
                &&& ascending(lists.received_invitations_from_users@)
                &&& lists.received_invitations_from_users@.to_set() == record.received.dom()
            },
    {
        let invitations = match self.state.user_invitations.get(&web2_id) {
            Some(invitations) => invitations,
            None => {
                return None;
            },
        };
        let mut state = InvitationsState::default();
        state.sent_invitations_to_users = invitations.invitations_sent.to_vec();
        state.received_invitations_from_users = keys_in_order(&invitations.invitations_received);
        Some(state)
    }

    /// A copy of the record of the match at `game_id`, if there is one.
    pub fn game_data(&self, game_id: u64) -> (game: Option<GameData>)
        ensures
            game is Some == self.ledger().games_by_id.contains_key(game_id),
            game is Some ==> game->0@ == self.ledger().games_by_id[game_id],
    {
        match self.state.game_by_id(game_id) {
            Some(game) => Some(game.clone()),
            None => None,
        }
    }

    /// Copies of the records of all matches, each with its identifier,
    /// smallest identifier first.
    pub fn all_games(&self) -> (games: Vec<(u64, GameData)>)
        ensures
            ascending(ids_of(games@)),
            ids_of(games@).to_set() == self.ledger().games_by_id.dom(),
            forall|i: int|
                0 <= i < games@.len() ==> self.ledger().games_by_id.contains_key(#[trigger] games@[i].0)
                    && games@[i].1@ == self.ledger().games_by_id[games@[i].0],
    {
        let games = records_in_order(&self.state.games_by_id);
        games
    }

    /// The identifiers of the matches that were opened, in the order in
    /// which they were opened.
    pub fn games_id_waiting(&self) -> (ids: Vec<u64>)
        ensures
            ids@ == self.ledger().games_waiting,
    {
        let ids = self.state.games_waiting.clone();
        ids
    }

    /// The identifiers on the list of finished matches.
    pub fn games_id_ended(&self) -> (ids: Vec<u64>)
        ensures
            ids@ == self.ledger().finished_games,
    {
        let ids = self.state.finished_games.clone();
        ids
    }

    /// The identifiers of the matches that were started, in the order in
    /// which they were started.
    pub fn games_id_started(&self) -> (ids: Vec<u64>)
        ensures
            ids@ == self.ledger().games_started,
    {
        let ids = self.state.games_started.clone();
        ids
    }

    /// Whether the invitation from `first_web2_id` to `second_web2_id` can be
    /// withdrawn: whether its stake, if one is recorded, can be written in
    /// smallest units.
    pub fn can_refund(&self, first_web2_id: u64, second_web2_id: u64) -> (fits: bool)
        ensures
            fits == refund_is_payable(self.ledger(), first_web2_id, second_web2_id),
    {
        match self.state.invitations.get(&(first_web2_id, second_web2_id)) {
            Some(stake) => stake.checked_mul(ONE_VARA).is_some(),
            None => true,
        }
    }

    /// Whether the match at `game_id` can be ended with a winner: whether its
    /// pot, if there is such a match, can be written in smallest units.
    pub fn can_pay_prize(&self, game_id: u64) -> (fits: bool)
        ensures
            fits == prize_is_payable(self.ledger(), game_id),
    {
        match self.state.game_by_id(game_id) {
            Some(game) => match game.game_bet.checked_mul(2) {
                Some(pot) => pot.checked_mul(ONE_VARA).is_some(),
                None => {
                    assert(2 * game.game_bet * ONE_VARA > u128::MAX) by (nonlinear_arith)
                        requires
                            2 * game.game_bet > u128::MAX,
                            ONE_VARA == 1_000_000_000_000,
                    ;
                    false
                },
            },
            None => true,
        }
    }

    /// The stake that `value` stands for, or the rejection of a call that has
    /// less than one whole token attached: the event to answer with, and the
    /// transfer that returns all of `value` to `caller`.
    pub fn format_bet_amout(caller: Address, value: u128) -> (stake: Result<BetAmout, (Bet2ChessEvents, Transfer)>)
        ensures
            below_minimum(value) ==> stake == Err::<BetAmout, (Bet2ChessEvents, Transfer)>(
                (
                    Bet2ChessEvents::Error(Bet2ChessErrors::MinAmoutToBetIsOneToken),
                    Transfer {
                        to: caller,
                        amount: value,
                        payload: Payload::Event(Bet2ChessEvents::Error(Bet2ChessErrors::MinAmoutToBetIsOneToken)),
                    },
                ),
            ),
            !below_minimum(value) ==> stake == Ok::<BetAmout, (Bet2ChessEvents, Transfer)>(stake_of(value)),
    {
        if value == 0 {
            return Ok(0);
        }
        if (value / ONE_VARA) < 1 {
            let payload = Bet2ChessEvents::Error(Bet2ChessErrors::MinAmoutToBetIsOneToken);
            return Err((payload, Transfer { to: caller, amount: value, payload: Payload::Event(payload) }));
        }
        Ok(value / ONE_VARA)
    }

    /// Withdraws the invitation that `first_web2_id` sent to
    /// `second_web2_id`; its stake goes back to the sender.
    pub fn cancel_invitation(&mut self, first_web2_id: u64, second_web2_id: u64) -> (reply: (
        Bet2ChessEvents,
        Option<Transfer>,
    ))
        requires
            refund_is_payable(old(self).ledger(), first_web2_id, second_web2_id),
        ensures
            ({
                let served = serve_cancel(old(self).ledger(), first_web2_id, second_web2_id);
                &&& final(self).ledger() == served.next
                &&& reply.0 == served.event
                &&& reply.1 == served.transfer
            }),
            *final(final(self).state) == *final(old(self).state),
            final(self).signless_state_ref == old(self).signless_state_ref,
    {
        self.handle_cancel_invitation(first_web2_id, second_web2_id)
    }

    /// Withdraws an invitation on behalf of the user at `user_address`, if
    /// `caller` is that user's signless address.
    pub fn cancel_invitation_signless(
        &mut self,
        caller: Address,
        user_address: Address,
        first_web2_id: u64,
        second_web2_id: u64,
    ) -> (reply: (Bet2ChessEvents, Option<Transfer>))
        requires
            refund_is_payable(old(self).ledger(), first_web2_id, second_web2_id),
        ensures
            ({
                let served = checked(
                    old(self).signless_state_ref@.check_address(caller, user_address),
                    old(self).ledger(),
                    serve_cancel(old(self).ledger(), first_web2_id, second_web2_id),
                );
                &&& final(self).ledger() == served.next
                &&& reply.0 == served.event
                &&& reply.1 == served.transfer
            }),
            *final(final(self).state) == *final(old(self).state),
            final(self).signless_state_ref == old(self).signless_state_ref,
    {
        let result = self.signless_state_ref.check_signless_address_by_user_address(caller, user_address);
        if let Err(signless_error) = result {
            return (Bet2ChessEvents::SignlessError(signless_error), None);
        }
        self.handle_cancel_invitation(first_web2_id, second_web2_id)
    }

    /// Withdraws an invitation on behalf of the user without a wallet named
    /// `no_wallet_name_encoded`, if `caller` is that user's signless address.
    pub fn cancel_invitation_signless_no_wallet(
        &mut self,
        caller: Address,
        no_wallet_name_encoded: String,
        first_web2_id: u64,
        second_web2_id: u64,
    ) -> (reply: (Bet2ChessEvents, Option<Transfer>))
        requires
            refund_is_payable(old(self).ledger(), first_web2_id, second_web2_id),
        ensures
            ({
                let served = checked(
                    old(self).signless_state_ref@.check_name(caller, no_wallet_name_encoded@),
                    old(self).ledger(),
                    serve_cancel(old(self).ledger(), first_web2_id, second_web2_id),
                );
                &&& final(self).ledger() == served.next
                &&& reply.0 == served.event
                &&& reply.1 == served.transfer
            }),
            *final(final(self).state) == *final(old(self).state),
            final(self).signless_state_ref == old(self).signless_state_ref,
    {
        let result = self.signless_state_ref.check_signless_address_by_no_wallet_account(
            caller,
            no_wallet_name_encoded,
        );
        if let Err(signless_error) = result {
            return (Bet2ChessEvents::SignlessError(signless_error), None);
        }
        self.handle_cancel_invitation(first_web2_id, second_web2_id)
    }

    /// Sends an invitation from `web2_user_id` to `web2_guest_id`. The stake
    /// is what `value` stands for, and `caller` is where it goes back to.
    pub fn send_invitation(
        &mut self,
        caller: Address,
        value: u128,
        web2_user_id: u64,
        web2_guest_id: u64,
    ) -> (reply: (Bet2ChessEvents, Option<Transfer>))
        ensures
            ({
                let served = serve_send(old(self).ledger(), caller, web2_user_id, web2_guest_id, value);
                &&& final(self).ledger() == served.next
                &&& reply.0 == served.event
                &&& reply.1 == served.transfer
            }),
            *final(final(self).state) == *final(old(self).state),
            final(self).signless_state_ref == old(self).signless_state_ref,
    {
        self.handle_send_invitation(caller, web2_user_id, web2_guest_id, value)
    }

    /// Sends an invitation on behalf of the user at `user_address`, if
    /// `caller` is that user's signless address. The stake goes back to
    /// `user_address`.
    pub fn send_invitation_signless(
        &mut self,
        caller: Address,
        value: u128,
        user_address: Address,
        web2_user_id: u64,
        web2_guest_id: u64,
    ) -> (reply: (Bet2ChessEvents, Option<Transfer>))
        ensures
            ({
                let served = checked(
                    old(self).signless_state_ref@.check_address(caller, user_address),
                    old(self).ledger(),
                    serve_send(old(self).ledger(), user_address, web2_user_id, web2_guest_id, value),
                );
                &&& final(self).ledger() == served.next
                &&& reply.0 == served.event
                &&& reply.1 == served.transfer
            }),
            *final(final(self).state) == *final(old(self).state),
            final(self).signless_state_ref == old(self).signless_state_ref,
    {
        let result = self.signless_state_ref.check_signless_address_by_user_address(caller, user_address);
        if let Err(signless_error) = result {
            return (Bet2ChessEvents::SignlessError(signless_error), None);
        }
        self.handle_send_invitation(user_address, web2_user_id, web2_guest_id, value)
    }

    /// Sends an invitation on behalf of the user without a wallet named
    /// `no_wallet_name_encoded`, if `caller` is that user's signless address.
    /// The stake goes back to `caller`.
    pub fn send_invitation_signless_no_wallet(
        &mut self,
        caller: Address,
        value: u128,
        no_wallet_name_encoded: String,
        web2_user_id: u64,
        web2_guest_id: u64,
    ) -> (reply: (Bet2ChessEvents, Option<Transfer>))
        ensures
            ({
                let served = checked(
                    old(self).signless_state_ref@.check_name(caller, no_wallet_name_encoded@),
                    old(self).ledger(),
                    serve_send(old(self).ledger(), caller, web2_user_id, web2_guest_id, value),
                );
                &&& final(self).ledger() == served.next
                &&& reply.0 == served.event
                &&& reply.1 == served.transfer
            }),
            *final(final(self).state) == *final(old(self).state),
            final(self).signless_state_ref == old(self).signless_state_ref,
    {
        let result = self.signless_state_ref.check_signless_address_by_no_wallet_account(
            caller,
            no_wallet_name_encoded,
        );
        if let Err(signless_error) = result {
            return (Bet2ChessEvents::SignlessError(signless_error), None);
        }
        self.handle_send_invitation(caller, web2_user_id, web2_guest_id, value)
    }

    /// Accepts, as `web2_user_id`, the invitation of
    /// `web2_user_id_invitation_owner`, which opens and starts the match at
    /// `web2_match_game_id`. The stake is what `value` stands for, and
    /// `caller` is the address of the accepting player.
    pub fn accept_invitation(
        &mut self,
        caller: Address,
        value: u128,
        web2_user_id: u64,
        web2_user_id_invitation_owner: u64,
        web2_match_game_id: u64,
        username_from_user_who_invite: String,
        own_username: String,
    ) -> (reply: (Bet2ChessEvents, Option<Transfer>))
        ensures
            ({
                let served = serve_accept(
                    old(self).ledger(),
                    caller,
                    web2_user_id,
                    web2_user_id_invitation_owner,
                    web2_match_game_id,
                    username_from_user_who_invite@,
                    own_username@,
                    value,
                );
                &&& final(self).ledger() == served.next
                &&& reply.0 == served.event
                &&& reply.1 == served.transfer
            }),
            *final(final(self).state) == *final(old(self).state),
            final(self).signless_state_ref == old(self).signless_state_ref,
    {
        self.handle_accept_invitation(
            caller,
            web2_user_id,
            web2_user_id_invitation_owner,
            web2_match_game_id,
            username_from_user_who_invite,
            own_username,
            value,
        )
    }

    /// Accepts an invitation on behalf of the user at `user_address`, who is
    /// the accepting player, if `caller` is that user's signless address.
    pub fn accept_invitation_signless(
        &mut self,
        caller: Address,
        value: u128,
        user_address: Address,
        web2_user_id: u64,
        web2_user_id_invitation_owner: u64,
        web2_match_game_id: u64,
        username_from_user_who_invite: String,
        own_username: String,
    ) -> (reply: (Bet2ChessEvents, Option<Transfer>))
        ensures
            ({
                let served = checked(
                    old(self).signless_state_ref@.check_address(caller, user_address),
                    old(self).ledger(),
                    serve_accept(
                        old(self).ledger(),
                        user_address,
                        web2_user_id,
                        web2_user_id_invitation_owner,
                        web2_match_game_id,
                        username_from_user_who_invite@,
                        own_username@,
                        value,
                    ),
                );
                &&& final(self).ledger() == served.next
                &&& reply.0 == served.event
                &&& reply.1 == served.transfer
            }),
            *final(final(self).state) == *final(old(self).state),
            final(self).signless_state_ref == old(self).signless_state_ref,
    {
        let result = self.signless_state_ref.check_signless_address_by_user_address(caller, user_address);
        if let Err(signless_error) = result {
            return (Bet2ChessEvents::SignlessError(signless_error), None);
        }
        self.handle_accept_invitation(
            user_address,
            web2_user_id,
            web2_user_id_invitation_owner,
            web2_match_game_id,
            username_from_user_who_invite,
            own_username,
            value,
        )
    }

    /// Accepts an invitation on behalf of the user without a wallet named
    /// `no_wallet_name_encoded`, if `caller` is that user's signless address,
    /// which is then the address of the accepting player.
    pub fn accept_invitation_signless_no_wallet(
        &mut self,
        caller: Address,
        value: u128,
        no_wallet_name_encoded: String,
        web2_user_id: u64,
        web2_user_id_invitation_owner: u64,
        web2_match_game_id: u64,
        username_from_user_who_invite: String,
        own_username: String,
    ) -> (reply: (Bet2ChessEvents, Option<Transfer>))
        ensures
            ({
                let served = checked(
                    old(self).signless_state_ref@.check_name(caller, no_wallet_name_encoded@),
                    old(self).ledger(),
                    serve_accept(
                        old(self).ledger(),
                        caller,
                        web2_user_id,
                        web2_user_id_invitation_owner,
                        web2_match_game_id,
                        username_from_user_who_invite@,
                        own_username@,
                        value,
                    ),
                );
                &&& final(self).ledger() == served.next
                &&& reply.0 == served.event
                &&& reply.1 == served.transfer
            }),
            *final(final(self).state) == *final(old(self).state),
            final(self).signless_state_ref == old(self).signless_state_ref,
    {
        let result = self.signless_state_ref.check_signless_address_by_no_wallet_account(
            caller,
            no_wallet_name_encoded,
        );
        if let Err(signless_error) = result {
            return (Bet2ChessEvents::SignlessError(signless_error), None);
        }
        self.handle_accept_invitation(
            caller,
            web2_user_id,
            web2_user_id_invitation_owner,
            web2_match_game_id,
            username_from_user_who_invite,
            own_username,
            value,
        )
    }

    /// Ends the match at `game_id`; the pot goes to `game_winner`, if there
    /// is one.
    pub fn end_game_by_id(&mut self, game_id: u64, game_winner: Option<Address>) -> (reply: (
        Bet2ChessEvents,
        Option<Transfer>,
    ))
        requires
            game_winner is Some ==> prize_is_payable(old(self).ledger(), game_id),
        ensures
            ({
                let served = serve_end(old(self).ledger(), game_id, game_winner);
                &&& final(self).ledger() == served.next
                &&& reply.0 == served.event
                &&& reply.1 == served.transfer
            }),
            *final(final(self).state) == *final(old(self).state),
            final(self).signless_state_ref == old(self).signless_state_ref,
    {
        let (result, transfer) = self.state.end_match(game_id, game_winner);
        match result {
            Ok(_) => (Bet2ChessEvents::GameEnded(game_id), to_smallest_units(transfer)),
            Err(error_message) => (Bet2ChessEvents::Error(error_message), to_smallest_units(transfer)),
        }
    }

    /// Ends the match at `game_id`; the pot goes to `game_winner`, if there
    /// is one.
    pub fn end_match(&mut self, game_id: u64, game_winner: Option<Address>) -> (reply: (
        Bet2ChessEvents,
        Option<Transfer>,
    ))
        requires
            game_winner is Some ==> prize_is_payable(old(self).ledger(), game_id),
        ensures
            ({
                let served = serve_end(old(self).ledger(), game_id, game_winner);
                &&& final(self).ledger() == served.next
                &&& reply.0 == served.event
                &&& reply.1 == served.transfer
            }),
            *final(final(self).state) == *final(old(self).state),
            final(self).signless_state_ref == old(self).signless_state_ref,
    {
        let (temp, transfer) = self.state.end_match(game_id, game_winner);
        match temp {
            Ok(ended_game_id) => (Bet2ChessEvents::GameEnded(ended_game_id), to_smallest_units(transfer)),
            Err(error) => (Bet2ChessEvents::Error(error), to_smallest_units(transfer)),
        }
    }

    /// Withdraws an invitation and writes the refund in smallest units.
    fn handle_cancel_invitation(&mut self, first_web2_id: u64, second_web2_id: u64) -> (reply: (
        Bet2ChessEvents,
        Option<Transfer>,
    ))
        requires
            refund_is_payable(old(self).ledger(), first_web2_id, second_web2_id),
        ensures
            ({
                let served = serve_cancel(old(self).ledger(), first_web2_id, second_web2_id);
                &&& final(self).ledger() == served.next
                &&& reply.0 == served.event
                &&& reply.1 == served.transfer
            }),
            *final(final(self).state) == *final(old(self).state),
            final(self).signless_state_ref == old(self).signless_state_ref,
    {
        let (result, transfer) = self.state.cancel_invitation(first_web2_id, second_web2_id);
        let event = match result {
            Err(error) => Bet2ChessEvents::Error(error),
            Ok(_) => Bet2ChessEvents::InvitationCancelled,
        };
        (event, to_smallest_units(transfer))
    }

    /// Turns the attached value into a stake and sends the invitation.
    fn handle_send_invitation(
        &mut self,
        user_address: Address,
        user_id: u64,
        guest_id: u64,
        bet_amount: u128,
    ) -> (reply: (Bet2ChessEvents, Option<Transfer>))
        ensures
            ({
                let served = serve_send(old(self).ledger(), user_address, user_id, guest_id, bet_amount);
                &&& final(self).ledger() == served.next
                &&& reply.0 == served.event
                &&& reply.1 == served.transfer
            }),
            *final(final(self).state) == *final(old(self).state),
            final(self).signless_state_ref == old(self).signless_state_ref,
    {
        let bet_value = match Self::format_bet_amout(user_address, bet_amount) {
            Err((event, transfer)) => {
                return (event, Some(transfer));
            },
            Ok(amount) => amount,
        };
        let (result, transfer) = self.state.create_invitation_with_bet(user_address, user_id, guest_id, bet_value);
        let event = match result {
            Err(error) => Bet2ChessEvents::Error(error),
            Ok(_) => Bet2ChessEvents::InvitationSentTo(guest_id),
        };
        proof {
            stake_is_payable(
                bet_amount,
                user_address,
                Payload::Error(Bet2ChessErrors::UserAlreadyInviteThePlayer(guest_id)),
            );
        }
        (event, to_smallest_units(transfer))
    }

    /// Turns the attached value into a stake and accepts the invitation.
    fn handle_accept_invitation(
        &mut self,
        user_address: Address,
        user_id: u64,
        user_who_invite: u64,
        web2_game_id: u64,
        username_from_user_who_invite: String,
        own_username: String,
        bet_amount: u128,
    ) -> (reply: (Bet2ChessEvents, Option<Transfer>))
        ensures
            ({
                let served = serve_accept(
                    old(self).ledger(),
                    user_address,
                    user_id,
                    user_who_invite,
                    web2_game_id,
                    username_from_user_who_invite@,
                    own_username@,
                    bet_amount,
                );
                &&& final(self).ledger() == served.next
                &&& reply.0 == served.event
                &&& reply.1 == served.transfer
            }),
            *final(final(self).state) == *final(old(self).state),
            final(self).signless_state_ref == old(self).signless_state_ref,
    {
        let bet_value = match Self::format_bet_amout(user_address, bet_amount) {
            Err((event, transfer)) => {
                return (event, Some(transfer));
            },
            Ok(amount) => amount,
        };
        let ghost names = (username_from_user_who_invite@, own_username@);
        let (result, transfer) = self.state.accept_invitation(
            user_address,
            user_id,
            user_who_invite,
            web2_game_id,
            username_from_user_who_invite,
            own_username,
            bet_value,
        );
        let event = match result {
            Err(error) => Bet2ChessEvents::Error(error),
            Ok(_) => Bet2ChessEvents::GameCreated(web2_game_id),
        };
        proof {
            let missing = Bet2ChessErrors::UserHasNoInvitationfromTheUser(user_who_invite);
            stake_is_payable(bet_amount, user_address, Payload::Error(missing));
            if old(self).ledger().has_stake(user_who_invite, user_id) {
                stake_is_payable(
                    bet_amount,
                    user_address,
                    Payload::Error(
                        Bet2ChessErrors::BetIsNotTheSameForMatch {
                            game_bet: old(self).ledger().invitations[(user_who_invite, user_id)],
                            bet_by_user: bet_value,
                        },
                    ),
                );
            }
        }
        (event, to_smallest_units(transfer))
    }
}

} // verus!
