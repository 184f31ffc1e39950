//! Invitations, matches and the stakes held against them.

use crate::address::Address;
use crate::escrow::{refund, Payload, Transfer};
use crate::services::bet2chess_service::Bet2ChessEvents;
use crate::id_set::IdSet;
use crate::states::ledger::{GameView, InvitationsView, Ledger};
use std::collections::BTreeMap;
use vstd::prelude::*;

verus! {

/// The identity of a user in the off-chain system.
pub type UserWeb2Id = u64;

/// The identifier of a match, chosen by the caller.
pub type GameId = u64;

/// A stake, in whole tokens.
pub type BetAmout = u128;

/// The number of smallest units in one whole token.
pub const ONE_VARA: u128 = 1_000_000_000_000;

/// Why an operation on invitations or matches was rejected.
#[derive(Clone, Copy, Debug, PartialEq, Eq, Structural)]
pub enum Bet2ChessErrors {
    GameIdDoesNotExists(GameId),
    GameWithIdAlreadyStarts(GameId),
    GameAlreadyStart(GameId),
    BetIsNotTheSameForMatch { game_bet: u128, bet_by_user: u128 },
    UserAlreadyInviteThePlayer(UserWeb2Id),
    UserHasNoInvitationfromTheUser(UserWeb2Id),
    UserAddressAndWeb2IdAreNotRelated,
    CantIncrementGamesIdItOverflow,
    InvitationDoesNotExists,
    ThereAreNoGamesWaiting,
    MinAmoutToBetIsOneToken,
    OnlyAdminsCanEndGames,
}

/// Where a match stands: it waits for its second player, runs, or is over.
#[derive(Clone, Copy, Debug, PartialEq, Eq, Structural)]
pub enum GameStatus {
    Waiting,
    Started,
    Ended { winner: Option<Address> },
}

impl Default for GameStatus {
    fn default() -> (s: GameStatus)
        ensures
            s == GameStatus::Waiting,
    {
        GameStatus::Waiting
    }
}

/// How a match ended for one of its players.
#[derive(Clone, Copy, Debug, PartialEq, Eq, Structural)]
pub enum ResultEnd {
    Win,
    Lose,
    Draw,
}

/// The record of one match.
#[derive(Debug)]
pub struct GameData {
    pub game_bet: u128,
    pub player1: Address,
    pub player2: Address,
    pub player1_username: String,
    pub player2_username: String,
    pub player1_web2_id: u64,
    pub player2_web2_id: u64,
    pub winner: Option<Address>,
    pub status: GameStatus,
}

impl View for GameData {
    type V = GameView;

    open spec fn view(&self) -> GameView {
        GameView {
            game_bet: self.game_bet,
            player1: self.player1,
            player2: self.player2,
            player1_username: self.player1_username@,
            player2_username: self.player2_username@,
            player1_web2_id: self.player1_web2_id,
            player2_web2_id: self.player2_web2_id,
            winner: self.winner,
            status: self.status,
        }
    }
}

impl Default for GameData {
    fn default() -> (g: GameData)
        ensures
            g@ == GameView::waiting_for(0),
    {
        GameData {
            game_bet: 0,
            player1: Address::zero(),
            player2: Address::zero(),
            player1_username: String::new(),
            player2_username: String::new(),
            player1_web2_id: 0,
            player2_web2_id: 0,
            winner: None,
            status: GameStatus::Waiting,
        }
    }
}

impl Clone for GameData {
    fn clone(&self) -> (g: GameData)
        ensures
            g@ == self@,
    {
        GameData {
            game_bet: self.game_bet,
            player1: self.player1,
            player2: self.player2,
            player1_username: self.player1_username.clone(),
            player2_username: self.player2_username.clone(),
            player1_web2_id: self.player1_web2_id,
            player2_web2_id: self.player2_web2_id,
            winner: self.winner,
            status: self.status,
        }
    }
}

/// The invitations of one user: those sent, by receiver, and those received,
/// each with the address of its sender.
pub struct InvitationsData {
    pub invitations_sent: IdSet,
    pub invitations_received: BTreeMap<UserWeb2Id, Address>,
}

impl View for InvitationsData {
    type V = InvitationsView;

    open spec fn view(&self) -> InvitationsView {
        InvitationsView { sent: self.invitations_sent@, received: self.invitations_received@ }
    }
}

impl InvitationsData {
    /// The record of a user who has neither sent nor received an invitation.
    pub fn new() -> (d: InvitationsData)
        ensures
            d@ == InvitationsView::none(),
    {
        InvitationsData { invitations_sent: IdSet::new(), invitations_received: BTreeMap::new() }
    }
}

/// Everything the engine keeps about invitations and matches.
pub struct ChessState {
    pub admins: Vec<Address>,
    pub games_started: Vec<GameId>,
    pub games_waiting: Vec<GameId>,
    pub finished_games: Vec<GameId>,
    pub games_by_web2_id: BTreeMap<u64, GameId>,
    pub games_by_id: BTreeMap<GameId, GameData>,
    pub invitations: BTreeMap<(UserWeb2Id, UserWeb2Id), BetAmout>,
    pub user_invitations: BTreeMap<UserWeb2Id, InvitationsData>,
    pub current_game_id: GameId,
}

impl View for ChessState {
    type V = Ledger;

    open spec fn view(&self) -> Ledger {
        Ledger {
            admins: self.admins@,
            games_started: self.games_started@,
            games_waiting: self.games_waiting@,
            finished_games: self.finished_games@,
            games_by_web2_id: self.games_by_web2_id@,
            games_by_id: self.games_by_id@.map_values(|g: GameData| g@),
            invitations: self.invitations@,
            user_invitations: self.user_invitations@.map_values(|d: InvitationsData| d@),
            current_game_id: self.current_game_id,
        }
    }
}

impl Default for ChessState {
    fn default() -> (s: ChessState)
        ensures
            s@ == Ledger::empty(),
    {
        let s = ChessState {
            admins: Vec::new(),
            games_started: Vec::new(),
            games_waiting: Vec::new(),
            finished_games: Vec::new(),
            games_by_web2_id: BTreeMap::new(),
            games_by_id: BTreeMap::new(),
            invitations: BTreeMap::new(),
            user_invitations: BTreeMap::new(),
            current_game_id: 0,
        };
        assert(s@.games_by_id =~= Map::empty());
        assert(s@.user_invitations =~= Map::empty());
        s
    }
}

/// The view of a map of records with one record replaced is the view of the
/// map with that record's view in its place.
proof fn view_of_insert(games: Map<GameId, GameData>, game_id: GameId, game: GameData)
    ensures
        games.insert(game_id, game).map_values(|g: GameData| g@) == games.map_values(|g: GameData| g@).insert(
            game_id,
            game@,
        ),
{
    assert(games.insert(game_id, game).map_values(|g: GameData| g@) =~= games.map_values(
        |g: GameData| g@,
    ).insert(game_id, game@));
}

/// Calls `BTreeMap::get_mut`, which returns a mutable reference to the value
/// at the key, if the map has that key. The map is otherwise untouched: when
/// the borrow ends it holds, at that key, what the reference then points to.
#[verifier::external_body]
fn record_mut(games: &mut BTreeMap<GameId, GameData>, game_id: GameId) -> (game: Option<&mut GameData>)
    ensures
        game is Some == old(games)@.contains_key(game_id),
        game is Some ==> *game->0 == old(games)@[game_id],
        game is Some ==> final(games)@ == old(games)@.insert(game_id, *final(game->0)),
        game is None ==> final(games)@ == old(games)@,
{
    games.get_mut(&game_id)
}

impl ChessState {
    /// Whether `sender` lists `receiver` among the users it has invited.
    fn has_sent(&self, sender: UserWeb2Id, receiver: UserWeb2Id) -> (found: bool)
        ensures
            found == self@.has_sent(sender, receiver),
    {
        match self.user_invitations.get(&sender) {
            Some(record) => record.invitations_sent.contains(receiver),
            None => false,
        }
    }

    /// The address that `receiver` has recorded for an invitation from
    /// `sender`, if it lists one.
    fn received_from(&self, receiver: UserWeb2Id, sender: UserWeb2Id) -> (from: Option<Address>)
        ensures
            from is Some == self@.has_received(receiver, sender),
            from is Some ==> from->0 == self@.record_of(receiver).received[sender],
    {
        match self.user_invitations.get(&receiver) {
            Some(record) => match record.invitations_received.get(&sender) {
                Some(from) => Some(*from),
                None => None,
            },
            None => None,
        }
    }

    /// Takes the record of `id` out of the state, or makes an empty one.
    fn take_record(&mut self, id: UserWeb2Id) -> (record: InvitationsData)
        ensures
            record@ == old(self)@.record_of(id),
            final(self)@ == (Ledger {
                user_invitations: old(self)@.user_invitations.remove(id),
                ..old(self)@
            }),
    {
        let record = match self.user_invitations.remove(&id) {
            Some(record) => record,
            None => InvitationsData::new(),
        };
        assert(self@.user_invitations =~= old(self)@.user_invitations.remove(id));
        record
    }

    /// Puts `record` into the state as the record of `id`.
    fn put_record(&mut self, id: UserWeb2Id, record: InvitationsData)
        ensures
            final(self)@ == old(self)@.with_record(id, record@),
    {
        self.user_invitations.insert(id, record);
        assert(self@.user_invitations =~= old(self)@.user_invitations.insert(id, record@));
    }

    /// Records an invitation from `user_id`, whose address is `user_address`,
    /// to `guest`, with `bet_amount` attached.
    ///
    /// The second component of the result is the transfer to perform: the
    /// stake goes back where the invitation is rejected as a duplicate.
    pub fn create_invitation_with_bet(
        &mut self,
        user_address: Address,
        user_id: UserWeb2Id,
        guest: UserWeb2Id,
        bet_amount: u128,
    ) -> (out: (Result<(), Bet2ChessErrors>, Option<Transfer>))
        ensures
            ({
                let step = old(self)@.create_invitation(user_address, user_id, guest, bet_amount);
                &&& final(self)@ == step.next
                &&& out.0 == step.result
                &&& out.1 == step.transfer
            }),
    {
        let duplicate = Bet2ChessErrors::UserAlreadyInviteThePlayer(guest);
        if self.has_sent(user_id, guest) {
            return (Err(duplicate), refund(user_address, bet_amount, Payload::Error(duplicate)));
        }
        let already_invited = self.received_from(guest, user_id).is_some();
        let mut sender = self.take_record(user_id);
        if already_invited {
            self.put_record(user_id, sender);
            assert(self@.user_invitations =~= old(self)@.touch(user_id).user_invitations);
            return (Err(duplicate), refund(user_address, bet_amount, Payload::Error(duplicate)));
        }
        sender.invitations_sent.insert(guest);
        self.put_record(user_id, sender);
        assert(self@.user_invitations =~= old(self)@.add_sent(user_id, guest).user_invitations);
        let ghost sent = self@;
        let mut receiver = self.take_record(guest);
        receiver.invitations_received.insert(user_id, user_address);
        self.put_record(guest, receiver);
        self.invitations.insert((user_id, guest), bet_amount);
        assert(self@.user_invitations =~= sent.add_received(guest, user_id, user_address).user_invitations);
        (Ok(()), None)
    }

    /// Takes `receiver` off the list of users that `sender` has invited.
    fn forget_sent(&mut self, sender: UserWeb2Id, receiver: UserWeb2Id)
        ensures
            final(self)@ == old(self)@.drop_sent(sender, receiver),
    {
        match self.user_invitations.remove(&sender) {
            Some(mut record) => {
                record.invitations_sent.remove(receiver);
                self.user_invitations.insert(sender, record);
            },
            None => {},
        }
        assert(self@.user_invitations =~= old(self)@.drop_sent(sender, receiver).user_invitations);
    }

    /// Takes `sender` off the list of invitations that `receiver` has
    /// received.
    fn forget_received(&mut self, receiver: UserWeb2Id, sender: UserWeb2Id)
        ensures
            final(self)@ == old(self)@.drop_received(receiver, sender),
    {
        match self.user_invitations.remove(&receiver) {
            Some(mut record) => {
                record.invitations_received.remove(&sender);
                self.user_invitations.insert(receiver, record);
            },
            None => {},
        }
        assert(self@.user_invitations =~= old(self)@.drop_received(receiver, sender).user_invitations);
    }

    /// Takes the stake of the invitation from `sender` to `receiver` out of
    /// the table of stakes.
    fn forget_stake(&mut self, sender: UserWeb2Id, receiver: UserWeb2Id)
        ensures
            final(self)@ == old(self)@.drop_stake(sender, receiver),
    {
        self.invitations.remove(&(sender, receiver));
    }

    /// Withdraws the invitation from `first_web2_id` to `second_web2_id`.
    ///
    /// The second component of the result is the transfer to perform: the
    /// stake of the invitation, back to its sender.
    pub fn cancel_invitation(&mut self, first_web2_id: UserWeb2Id, second_web2_id: UserWeb2Id) -> (out: (
        Result<(), Bet2ChessErrors>,
        Option<Transfer>,
    ))
        ensures
            ({
                let step = old(self)@.cancel_invitation(first_web2_id, second_web2_id);
                &&& final(self)@ == step.next
                &&& out.0 == step.result
                &&& out.1 == step.transfer
            }),
    {
        if !self.has_sent(first_web2_id, second_web2_id) {
            return (Err(Bet2ChessErrors::UserHasNoInvitationfromTheUser(second_web2_id)), None);
        }
        let first_user_address = match self.received_from(second_web2_id, first_web2_id) {
            Some(address) => address,
            None => {
                return (Err(Bet2ChessErrors::UserHasNoInvitationfromTheUser(first_web2_id)), None);
            },
        };
        let bet_amount = match self.invitations.get(&(first_web2_id, second_web2_id)) {
            Some(bet) => *bet,
            None => {
                return (Err(Bet2ChessErrors::InvitationDoesNotExists), None);
            },
        };
        self.forget_sent(first_web2_id, second_web2_id);
        self.forget_received(second_web2_id, first_web2_id);
        self.forget_stake(first_web2_id, second_web2_id);
        (Ok(()), refund(first_user_address, bet_amount, Payload::Refund))
    }

    /// A match with the given stake that no player has entered yet.
    fn new_game_with_bet(bet_amount: BetAmout) -> (game: GameData)
        ensures
            game@ == GameView::waiting_for(bet_amount),
    {
        let mut game_data = GameData::default();
        game_data.game_bet = bet_amount;
        game_data
    }

    /// Opens a match at `game_id` with its first player, and returns a copy
    /// of its record. This always succeeds: a record that was at `game_id`
    /// before is replaced.
    pub fn create_match(
        &mut self,
        address: Address,
        username: String,
        user_web2_id: u64,
        bet_amount: BetAmout,
        game_id: GameId,
    ) -> (created: GameData)
        ensures
            created@ == GameView::opened_by(address, username@, user_web2_id, bet_amount),
            final(self)@ == old(self)@.create_match(address, username@, user_web2_id, bet_amount, game_id),
    {
        let mut game_data = Self::new_game_with_bet(bet_amount);
        game_data.player1 = address;
        game_data.player1_username = username;
        game_data.player1_web2_id = user_web2_id;
        let created = game_data.clone();
        self.games_by_id.insert(game_id, game_data);
        self.games_waiting.push(game_id);
        assert(self@.games_by_id =~= old(self)@.create_match(
            address,
            username@,
            user_web2_id,
            bet_amount,
            game_id,
        ).games_by_id);
        created
    }

    /// The record of the match at `game_id`, if there is one.
    pub fn game_by_id(&self, game_id: GameId) -> (game: Option<&GameData>)
        ensures
            game is Some == self@.games_by_id.contains_key(game_id),
            game is Some ==> game->0@ == self@.games_by_id[game_id],
    {
        self.games_by_id.get(&game_id)
    }

    /// The record of the match at `game_id`, to be changed in place, if there
    /// is one. Whatever the caller writes through the reference is what the
    /// state then holds at `game_id`; nothing else changes.
    pub fn game_mut_by_id(&mut self, game_id: GameId) -> (game: Option<&mut GameData>)
        ensures
            game is Some == old(self)@.games_by_id.contains_key(game_id),
            game is Some ==> game->0@ == old(self)@.games_by_id[game_id],
            game is Some ==> final(self)@ == (Ledger {
                games_by_id: old(self)@.games_by_id.insert(game_id, final(game->0)@),
                ..old(self)@
            }),
            game is None ==> final(self)@ == old(self)@,
    {
        let ghost games = self.games_by_id@;
        let game = record_mut(&mut self.games_by_id, game_id);
        proof {
            if game is Some {
                view_of_insert(games, game_id, *final(game->0));
            }
        }
        game
    }

    /// Enters the second player into the match at `game_id`, which starts it.
    ///
    /// The second component of the result is the transfer to perform: the
    /// stake goes back where the match no longer waits or has another stake.
    pub fn join_match(
        &mut self,
        address: Address,
        username: String,
        user_web2_id: u64,
        bet_amount: BetAmout,
        game_id: GameId,
    ) -> (out: (Result<(), Bet2ChessErrors>, Option<Transfer>))
        ensures
            ({
                let step = old(self)@.join_match(address, username@, user_web2_id, bet_amount, game_id);
                &&& final(self)@ == step.next
                &&& out.0 == step.result
                &&& out.1 == step.transfer
            }),
    {
        let game_data = match self.game_mut_by_id(game_id) {
            Some(game_data) => game_data,
            None => {
                return (Err(Bet2ChessErrors::GameIdDoesNotExists(game_id)), None);
            },
        };
        if game_data.status != GameStatus::Waiting {
            let error = Bet2ChessErrors::GameAlreadyStart(game_id);
            assert(self@.games_by_id =~= old(self)@.games_by_id);
            return (Err(error), refund(address, bet_amount, Payload::Error(error)));
        }
        if game_data.game_bet != bet_amount {
            let error = Bet2ChessErrors::BetIsNotTheSameForMatch {
                game_bet: game_data.game_bet,
                bet_by_user: bet_amount,
            };
            assert(self@.games_by_id =~= old(self)@.games_by_id);
            return (Err(error), refund(address, bet_amount, Payload::Error(error)));
        }
        game_data.player2 = address;
        game_data.player2_username = username;
        game_data.player2_web2_id = user_web2_id;
        game_data.status = GameStatus::Started;
        self.games_started.push(game_id);
        (Ok(()), None)
    }

    /// Whether the match at `game_id` can be ended with a winner: whether its
    /// pot, if there is such a match, is an amount that a transfer can carry.
    pub fn can_pay_pot(&self, game_id: GameId) -> (fits: bool)
        ensures
            fits == self@.pot_fits(game_id),
    {
        match self.games_by_id.get(&game_id) {
            Some(game) => game.game_bet.checked_mul(2).is_some(),
            None => true,
        }
    }

    /// Ends the match at `game_id`, with or without a winner.
    ///
    /// The second component of the result is the transfer to perform: the pot
    /// goes to the address reported as the winner, whether or not it is the
    /// address of a player. Ending a match twice asks for the pot twice;
    /// callers have to see to it that a match is ended once.
    pub fn end_match(&mut self, game_id: GameId, game_winner: Option<Address>) -> (out: (
        Result<GameId, Bet2ChessErrors>,
        Option<Transfer>,
    ))
        requires
            game_winner is Some ==> old(self)@.pot_fits(game_id),
        ensures
            ({
                let step = old(self)@.end_match(game_id, game_winner);
                &&& final(self)@ == step.next
                &&& out.0 == step.result
                &&& out.1 == step.transfer
            }),
    {
        let game_data = match self.game_mut_by_id(game_id) {
            Some(game_data) => game_data,
            None => {
                return (Err(Bet2ChessErrors::GameIdDoesNotExists(game_id)), None);
            },
        };
        let winner = match game_winner {
            Some(winner) => winner,
            None => {
                game_data.status = GameStatus::Ended { winner: None };
                return (Ok(game_id), None);
            },
        };
        if game_data.player1 == winner {
            game_data.status = GameStatus::Ended { winner: Some(game_data.player1) };
        } else {
            game_data.status = GameStatus::Ended { winner: Some(game_data.player2) };
        }
        let pot = 2 * game_data.game_bet;
        (Ok(game_id), Some(Transfer { to: winner, amount: pot, payload: Payload::Event(Bet2ChessEvents::Price) }))
    }

    /// Accepts the invitation that `user_who_invite` sent to `invited_user`:
    /// the invitation goes, and a match between the two is opened at
    /// `web2_game_id` and started.
    ///
    /// `user_address` is the address of the accepting user and `bet_amount`
    /// the stake attached to the call. The second component of the result is
    /// the transfer to perform.
    pub fn accept_invitation(
        &mut self,
        user_address: Address,
        invited_user: UserWeb2Id,
        user_who_invite: UserWeb2Id,
        web2_game_id: GameId,
        username_from_user_who_invite: String,
        own_username: String,
        bet_amount: BetAmout,
    ) -> (out: (Result<GameId, Bet2ChessErrors>, Option<Transfer>))
        ensures
            ({
                let step = old(self)@.accept_invitation(
                    user_address,
                    invited_user,
                    user_who_invite,
                    web2_game_id,
                    username_from_user_who_invite@,
                    own_username@,
                    bet_amount,
                );
                &&& final(self)@ == step.next
                &&& out.0 == step.result
                &&& out.1 == step.transfer
            }),
    {
        let missing = Bet2ChessErrors::UserHasNoInvitationfromTheUser(user_who_invite);
        let bet = match self.invitations.get(&(user_who_invite, invited_user)) {
            Some(bet) => *bet,
            None => {
                return (Err(missing), None);
            },
        };
        if bet != bet_amount {
            let error = Bet2ChessErrors::BetIsNotTheSameForMatch { game_bet: bet, bet_by_user: bet_amount };
            return (Err(error), refund(user_address, bet_amount, Payload::Error(error)));
        }
        let recorded = self.received_from(invited_user, user_who_invite);
        self.forget_stake(user_who_invite, invited_user);
        self.forget_sent(user_who_invite, invited_user);
        let first_user_address = match recorded {
            Some(address) => address,
            None => {
                return (Err(missing), refund(user_address, bet_amount, Payload::Error(missing)));
            },
        };
        self.forget_received(invited_user, user_who_invite);
        let _ = self.create_match(
            first_user_address,
            username_from_user_who_invite,
            user_who_invite,
            bet_amount,
            web2_game_id,
        );
        let _ = self.join_match(user_address, own_username, invited_user, bet_amount, web2_game_id);
        (Ok(web2_game_id), None)
    }
}

} // verus!
