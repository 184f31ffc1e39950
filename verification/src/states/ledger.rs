//! The mathematical model of the engine's state, and the rules of each
//! operation as functions on that model.

use crate::address::Address;
use crate::escrow::{refund_of, Payload, Transfer};
use crate::services::bet2chess_service::Bet2ChessEvents;
use crate::states::bet2chess_state::{Bet2ChessErrors, GameStatus};
use crate::states::totals::total_stake;
use vstd::prelude::*;

verus! {

/// A match record, with its names as sequences of characters.
pub struct GameView {
    pub game_bet: u128,
    pub player1: Address,
    pub player2: Address,
    pub player1_username: Seq<char>,
    pub player2_username: Seq<char>,
    pub player1_web2_id: u64,
    pub player2_web2_id: u64,
    pub winner: Option<Address>,
    pub status: GameStatus,
}

impl GameView {
    /// A match with the given stake, opened by its first player and waiting
    /// for the second.
    pub open spec fn opened_by(address: Address, name: Seq<char>, id: u64, stake: u128) -> GameView {
        GameView { player1: address, player1_username: name, player1_web2_id: id, ..Self::waiting_for(stake) }
    }

    /// A match with the given stake that no player has entered yet.
    pub open spec fn waiting_for(stake: u128) -> GameView {
        GameView {
            game_bet: stake,
            player1: Address { hi: 0, lo: 0 },
            player2: Address { hi: 0, lo: 0 },
            player1_username: Seq::empty(),
            player2_username: Seq::empty(),
            player1_web2_id: 0,
            player2_web2_id: 0,
            winner: None,
            status: GameStatus::Waiting,
        }
    }
}

/// The invitations of one user.
pub struct InvitationsView {
    /// The users this one has invited.
    pub sent: Set<u64>,
    /// The users who have invited this one, each with the sender's address.
    pub received: Map<u64, Address>,
}

impl InvitationsView {
    /// Neither sent nor received anything.
    pub open spec fn none() -> InvitationsView {
        InvitationsView { sent: Set::empty(), received: Map::empty() }
    }
}

/// The whole state: invitations, matches and the lists of match identifiers.
pub struct Ledger {
    pub admins: Seq<Address>,
    pub games_started: Seq<u64>,
    pub games_waiting: Seq<u64>,
    pub finished_games: Seq<u64>,
    pub games_by_web2_id: Map<u64, u64>,
    pub games_by_id: Map<u64, GameView>,
    /// The stake of each pending invitation, by (sender, receiver).
    pub invitations: Map<(u64, u64), u128>,
    pub user_invitations: Map<u64, InvitationsView>,
    pub current_game_id: u64,
}

/// What an operation does: the state it leaves, what it returns, and the
/// transfer it asks for.
pub struct Step<T> {
    pub next: Ledger,
    pub result: Result<T, Bet2ChessErrors>,
    pub transfer: Option<Transfer>,
}

impl Ledger {
    /// The state in which nothing has happened yet.
    pub open spec fn empty() -> Ledger {
        Ledger {
            admins: Seq::empty(),
            games_started: Seq::empty(),
            games_waiting: Seq::empty(),
            finished_games: Seq::empty(),
            games_by_web2_id: Map::empty(),
            games_by_id: Map::empty(),
            invitations: Map::empty(),
            user_invitations: Map::empty(),
            current_game_id: 0,
        }
    }

    /// The invitations of `id`; none where the user has no record.
    pub open spec fn record_of(self, id: u64) -> InvitationsView {
        if self.user_invitations.contains_key(id) {
            self.user_invitations[id]
        } else {
            InvitationsView::none()
        }
    }

    /// Whether `sender` lists `receiver` among the users it has invited.
    pub open spec fn has_sent(self, sender: u64, receiver: u64) -> bool {
        self.record_of(sender).sent.contains(receiver)
    }

    /// Whether `receiver` lists an invitation that came from `sender`.
    pub open spec fn has_received(self, receiver: u64, sender: u64) -> bool {
        self.record_of(receiver).received.contains_key(sender)
    }

    /// Whether a stake is recorded for the invitation from `sender` to
    /// `receiver`.
    pub open spec fn has_stake(self, sender: u64, receiver: u64) -> bool {
        self.invitations.contains_key((sender, receiver))
    }

    /// Whether every invitation stands in all three places or in none: the
    /// table of stakes, the sender's list and the receiver's list.
    pub open spec fn mirrored(self) -> bool {
        forall|sender: u64, receiver: u64|
            #![trigger self.has_stake(sender, receiver)]
            #![trigger self.has_sent(sender, receiver)]
            #![trigger self.has_received(receiver, sender)]
            self.has_stake(sender, receiver) == self.has_sent(sender, receiver) && self.has_stake(sender, receiver)
                == self.has_received(receiver, sender)
    }

    /// Whether the invitations are finitely many and mirrored. The empty
    /// state is consistent, and every operation keeps a consistent state so.
    pub open spec fn consistent(self) -> bool {
        self.invitations.dom().finite() && self.mirrored()
    }

    /// The sum of the stakes of all pending invitations.
    pub open spec fn held(self) -> nat {
        total_stake(self.invitations)
    }

    /// The state with `record` as the invitations of `id`.
    pub open spec fn with_record(self, id: u64, record: InvitationsView) -> Ledger {
        Ledger { user_invitations: self.user_invitations.insert(id, record), ..self }
    }

    /// The state in which `id` has a record, an empty one if it had none.
    pub open spec fn touch(self, id: u64) -> Ledger {
        self.with_record(id, self.record_of(id))
    }

    /// The state in which `sender` lists `receiver` as invited.
    pub open spec fn add_sent(self, sender: u64, receiver: u64) -> Ledger {
        let r = self.record_of(sender);
        self.with_record(sender, InvitationsView { sent: r.sent.insert(receiver), ..r })
    }

    /// The state in which `receiver` lists an invitation from `sender`, whose
    /// address is `from`.
    pub open spec fn add_received(self, receiver: u64, sender: u64, from: Address) -> Ledger {
        let r = self.record_of(receiver);
        self.with_record(receiver, InvitationsView { received: r.received.insert(sender, from), ..r })
    }

    /// The state in which `sender` no longer lists `receiver`. A user without
    /// a record stays without one.
    pub open spec fn drop_sent(self, sender: u64, receiver: u64) -> Ledger {
        if self.user_invitations.contains_key(sender) {
            let r = self.user_invitations[sender];
            self.with_record(sender, InvitationsView { sent: r.sent.remove(receiver), ..r })
        } else {
            self
        }
    }

    /// The state in which `receiver` no longer lists `sender`. A user without
    /// a record stays without one.
    pub open spec fn drop_received(self, receiver: u64, sender: u64) -> Ledger {
        if self.user_invitations.contains_key(receiver) {
            let r = self.user_invitations[receiver];
            self.with_record(receiver, InvitationsView { received: r.received.remove(sender), ..r })
        } else {
            self
        }
    }

    /// The state without a stake for the invitation from `sender` to
    /// `receiver`.
    pub open spec fn drop_stake(self, sender: u64, receiver: u64) -> Ledger {
        Ledger { invitations: self.invitations.remove((sender, receiver)), ..self }
    }

    /// The state with `stake` recorded for the invitation from `sender` to
    /// `receiver`.
    pub open spec fn set_stake(self, sender: u64, receiver: u64, stake: u128) -> Ledger {
        Ledger { invitations: self.invitations.insert((sender, receiver), stake), ..self }
    }

    /// An operation that is rejected and changes nothing.
    pub open spec fn reject<T>(self, error: Bet2ChessErrors, transfer: Option<Transfer>) -> Step<T> {
        Step { next: self, result: Err(error), transfer }
    }

    /// Sending an invitation from `sender` (whose address is `from`) to
    /// `receiver`, with `stake` attached.
    ///
    /// It is rejected as a duplicate, and the stake returned, where the sender
    /// already lists the receiver, or where the receiver already lists the
    /// sender. In the second case the sender has a record afterwards.
    /// Otherwise the invitation is entered in all three places.
    pub open spec fn create_invitation(self, from: Address, sender: u64, receiver: u64, stake: u128) -> Step<()> {
        let duplicate = Bet2ChessErrors::UserAlreadyInviteThePlayer(receiver);
        let back = refund_of(from, stake, Payload::Error(duplicate));
        if self.has_sent(sender, receiver) {
            self.reject(duplicate, back)
        } else if self.has_received(receiver, sender) {
            Step { next: self.touch(sender), result: Err(duplicate), transfer: back }
        } else {
            Step {
                next: self.add_sent(sender, receiver).add_received(receiver, sender, from).set_stake(
                    sender,
                    receiver,
                    stake,
                ),
                result: Ok(()),
                transfer: None,
            }
        }
    }

    /// Withdrawing the invitation from `sender` to `receiver`.
    ///
    /// It is rejected, and nothing changes, unless the invitation stands in
    /// all three places. Otherwise it leaves all three, and its stake goes
    /// back to the address that the receiver had recorded for the sender.
    pub open spec fn cancel_invitation(self, sender: u64, receiver: u64) -> Step<()> {
        if !self.has_sent(sender, receiver) {
            self.reject(Bet2ChessErrors::UserHasNoInvitationfromTheUser(receiver), None)
        } else if !self.has_received(receiver, sender) {
            self.reject(Bet2ChessErrors::UserHasNoInvitationfromTheUser(sender), None)
        } else if !self.has_stake(sender, receiver) {
            self.reject(Bet2ChessErrors::InvitationDoesNotExists, None)
        } else {
            Step {
                next: self.drop_sent(sender, receiver).drop_received(receiver, sender).drop_stake(sender, receiver),
                result: Ok(()),
                transfer: refund_of(
                    self.record_of(receiver).received[sender],
                    self.invitations[(sender, receiver)],
                    Payload::Refund,
                ),
            }
        }
    }

    /// The state after a match is opened at `match_id` by its first player.
    /// A record that was there before is replaced.
    pub open spec fn create_match(
        self,
        address: Address,
        name: Seq<char>,
        id: u64,
        stake: u128,
        match_id: u64,
    ) -> Ledger {
        Ledger {
            games_by_id: self.games_by_id.insert(match_id, GameView::opened_by(address, name, id, stake)),
            games_waiting: self.games_waiting.push(match_id),
            ..self
        }
    }

    /// The second player entering the match at `match_id` with `stake`.
    ///
    /// It is rejected, and nothing changes, where there is no such match,
    /// where the match no longer waits, and where the stake is not the one of
    /// the match; in the last two cases the stake is returned.
    pub open spec fn join_match(
        self,
        address: Address,
        name: Seq<char>,
        id: u64,
        stake: u128,
        match_id: u64,
    ) -> Step<()> {
        if !self.games_by_id.contains_key(match_id) {
            self.reject(Bet2ChessErrors::GameIdDoesNotExists(match_id), None)
        } else {
            let game = self.games_by_id[match_id];
            if game.status != GameStatus::Waiting {
                let error = Bet2ChessErrors::GameAlreadyStart(match_id);
                self.reject(error, refund_of(address, stake, Payload::Error(error)))
            } else if game.game_bet != stake {
                let error = Bet2ChessErrors::BetIsNotTheSameForMatch { game_bet: game.game_bet, bet_by_user: stake };
                self.reject(error, refund_of(address, stake, Payload::Error(error)))
            } else {
                let started = GameView {
                    player2: address,
                    player2_username: name,
                    player2_web2_id: id,
                    status: GameStatus::Started,
                    ..game
                };
                Step {
                    next: Ledger {
                        games_by_id: self.games_by_id.insert(match_id, started),
                        games_started: self.games_started.push(match_id),
                        ..self
                    },
                    result: Ok(()),
                    transfer: None,
                }
            }
        }
    }

    /// The player recorded as the winner when `claimed` is reported to have
    /// won: the first player if `claimed` is that player's address, else the
    /// second, whoever `claimed` is.
    pub open spec fn resolved_winner(game: GameView, claimed: Address) -> Address {
        if game.player1 == claimed {
            game.player1
        } else {
            game.player2
        }
    }

    /// Whether the pot of the match at `match_id`, twice its stake, is an
    /// amount that a transfer can carry. It is where there is no such match.
    pub open spec fn pot_fits(self, match_id: u64) -> bool {
        self.games_by_id.contains_key(match_id) ==> 2 * self.games_by_id[match_id].game_bet <= u128::MAX
    }

    /// Ending the match at `match_id`.
    ///
    /// Without a winner the match is over and nothing is paid. With one, the
    /// pot, twice the stake, goes to the address that was reported. A match
    /// that is over already is ended again in the same way: nothing here
    /// keeps the pot from being asked for twice.
    pub open spec fn end_match(self, match_id: u64, winner: Option<Address>) -> Step<u64> {
        if !self.games_by_id.contains_key(match_id) {
            self.reject(Bet2ChessErrors::GameIdDoesNotExists(match_id), None)
        } else {
            let game = self.games_by_id[match_id];
            match winner {
                None => Step {
                    next: Ledger {
                        games_by_id: self.games_by_id.insert(
                            match_id,
                            GameView { status: GameStatus::Ended { winner: None }, ..game },
                        ),
                        ..self
                    },
                    result: Ok(match_id),
                    transfer: None,
                },
                Some(claimed) => Step {
                    next: Ledger {
                        games_by_id: self.games_by_id.insert(
                            match_id,
                            GameView {
                                status: GameStatus::Ended { winner: Some(Self::resolved_winner(game, claimed)) },
                                ..game
                            },
                        ),
                        ..self
                    },
                    result: Ok(match_id),
                    transfer: Some(
                        Transfer {
                            to: claimed,
                            amount: (2 * game.game_bet) as u128,
                            payload: Payload::Event(Bet2ChessEvents::Price),
                        },
                    ),
                },
            }
        }
    }

    /// Accepting the invitation from `inviter` to `acceptor`, with `stake`
    /// attached, which opens the match at `match_id` and starts it. A match
    /// that was at `match_id` before is replaced.
    ///
    /// It is rejected where no stake is recorded for the invitation, and
    /// where the recorded stake is not `stake`, which is then returned; in
    /// both cases nothing changes. Where the acceptor does not list the
    /// invitation although a stake is recorded, what is left of the
    /// invitation is removed, `stake` is returned and the call is rejected.
    pub open spec fn accept_invitation(
        self,
        acceptor_address: Address,
        acceptor: u64,
        inviter: u64,
        match_id: u64,
        inviter_name: Seq<char>,
        acceptor_name: Seq<char>,
        stake: u128,
    ) -> Step<u64> {
        let missing = Bet2ChessErrors::UserHasNoInvitationfromTheUser(inviter);
        if !self.has_stake(inviter, acceptor) {
            self.reject(missing, None)
        } else if self.invitations[(inviter, acceptor)] != stake {
            let error = Bet2ChessErrors::BetIsNotTheSameForMatch {
                game_bet: self.invitations[(inviter, acceptor)],
                bet_by_user: stake,
            };
            self.reject(error, refund_of(acceptor_address, stake, Payload::Error(error)))
        } else if !self.has_received(acceptor, inviter) {
            Step {
                next: self.drop_stake(inviter, acceptor).drop_sent(inviter, acceptor),
                result: Err(missing),
                transfer: refund_of(acceptor_address, stake, Payload::Error(missing)),
            }
        } else {
            let inviter_address = self.record_of(acceptor).received[inviter];
            let cleared = self.drop_stake(inviter, acceptor).drop_sent(inviter, acceptor).drop_received(
                acceptor,
                inviter,
            );
            let opened = cleared.create_match(inviter_address, inviter_name, inviter, stake, match_id);
            Step {
                next: opened.join_match(acceptor_address, acceptor_name, acceptor, stake, match_id).next,
                result: Ok(match_id),
                transfer: None,
            }
        }
    }
}

} // verus!
