//! What holds of the rules in every state: statements that relate several
//! operations, each proved from the model.

use crate::address::Address;
use crate::escrow::{refund_of, Payload, Transfer};
use crate::services::bet2chess_service::{below_minimum, minimum_not_met, serve_accept, serve_send, Bet2ChessEvents};
use crate::states::bet2chess_state::{Bet2ChessErrors, GameStatus};
use crate::states::ledger::{GameView, Ledger, Step};
use crate::states::totals::{total_after_insert, total_after_remove};
use vstd::prelude::*;

verus! {

/// The amount that a transfer moves; nothing where there is no transfer.
pub open spec fn amount_of(transfer: Option<Transfer>) -> nat {
    match transfer {
        Some(t) => t.amount as nat,
        None => 0,
    }
}

/// Whether each list of match identifiers in `after` begins with the list
/// in `before`.
pub open spec fn extends(before: Ledger, after: Ledger) -> bool {
    &&& before.games_waiting.is_prefix_of(after.games_waiting)
    &&& before.games_started.is_prefix_of(after.games_started)
    &&& before.finished_games.is_prefix_of(after.finished_games)
}

/// The empty state is consistent.
pub proof fn empty_is_consistent()
    ensures
        Ledger::empty().consistent(),
{
}

/// Sending an invitation keeps a consistent state consistent.
pub proof fn create_keeps_consistent(l: Ledger, from: Address, sender: u64, receiver: u64, stake: u128)
    requires
        l.consistent(),
    ensures
        l.create_invitation(from, sender, receiver, stake).next.consistent(),
{
    let next = l.create_invitation(from, sender, receiver, stake).next;
    assert forall|s: u64, r: u64|
        next.has_stake(s, r) == next.has_sent(s, r) && next.has_stake(s, r) == next.has_received(r, s) by {
        assert(l.has_stake(s, r) == l.has_received(r, s));
    }
}

/// Withdrawing an invitation keeps a consistent state consistent.
pub proof fn cancel_keeps_consistent(l: Ledger, sender: u64, receiver: u64)
    requires
        l.consistent(),
    ensures
        l.cancel_invitation(sender, receiver).next.consistent(),
{
    let next = l.cancel_invitation(sender, receiver).next;
    assert forall|s: u64, r: u64|
        next.has_stake(s, r) == next.has_sent(s, r) && next.has_stake(s, r) == next.has_received(r, s) by {
        assert(l.has_stake(s, r) == l.has_received(r, s));
    }
}

/// Accepting an invitation keeps a consistent state consistent.
pub proof fn accept_keeps_consistent(
    l: Ledger,
    acceptor_address: Address,
    acceptor: u64,
    inviter: u64,
    match_id: u64,
    inviter_name: Seq<char>,
    acceptor_name: Seq<char>,
    stake: u128,
)
    requires
        l.consistent(),
    ensures
        l.accept_invitation(
            acceptor_address,
            acceptor,
            inviter,
            match_id,
            inviter_name,
            acceptor_name,
            stake,
        ).next.consistent(),
{
    let next = l.accept_invitation(
        acceptor_address,
        acceptor,
        inviter,
        match_id,
        inviter_name,
        acceptor_name,
        stake,
    ).next;
    assert forall|s: u64, r: u64|
        next.has_stake(s, r) == next.has_sent(s, r) && next.has_stake(s, r) == next.has_received(r, s) by {
        assert(l.has_stake(s, r) == l.has_received(r, s));
    }
}

/// Opening, joining and ending a match leave the invitations as they are.
pub proof fn matches_leave_invitations(
    l: Ledger,
    address: Address,
    name: Seq<char>,
    id: u64,
    stake: u128,
    match_id: u64,
    winner: Option<Address>,
)
    ensures
        l.create_match(address, name, id, stake, match_id).invitations == l.invitations,
        l.create_match(address, name, id, stake, match_id).user_invitations == l.user_invitations,
        l.join_match(address, name, id, stake, match_id).next.invitations == l.invitations,
        l.join_match(address, name, id, stake, match_id).next.user_invitations == l.user_invitations,
        l.end_match(match_id, winner).next.invitations == l.invitations,
        l.end_match(match_id, winner).next.user_invitations == l.user_invitations,
{
}

/// In a consistent state no operation meets a half-recorded invitation:
/// withdrawing succeeds exactly when a stake is recorded, accepting with the
/// recorded stake succeeds, and a rejected invitation changes nothing.
pub proof fn consistent_state_has_no_half_invitation(
    l: Ledger,
    from: Address,
    sender: u64,
    receiver: u64,
    stake: u128,
    match_id: u64,
    sender_name: Seq<char>,
    receiver_name: Seq<char>,
)
    requires
        l.consistent(),
    ensures
        l.cancel_invitation(sender, receiver).result is Ok == l.has_stake(sender, receiver),
        l.cancel_invitation(sender, receiver).result is Err ==> l.cancel_invitation(sender, receiver).result == Err::<
            (),
            Bet2ChessErrors,
        >(Bet2ChessErrors::UserHasNoInvitationfromTheUser(receiver)),
        l.has_stake(sender, receiver) && l.invitations[(sender, receiver)] == stake ==> l.accept_invitation(
            from,
            receiver,
            sender,
            match_id,
            sender_name,
            receiver_name,
            stake,
        ).result is Ok,
        l.create_invitation(from, sender, receiver, stake).result is Ok == !l.has_stake(sender, receiver),
        l.create_invitation(from, sender, receiver, stake).result is Err ==> l.create_invitation(
            from,
            sender,
            receiver,
            stake,
        ).next == l,
{
}

/// Sending an invitation loses no stake: what is held afterwards and what is
/// returned add up to what was held before and what was attached.
pub proof fn create_conserves_stake(l: Ledger, from: Address, sender: u64, receiver: u64, stake: u128)
    requires
        l.consistent(),
    ensures
        l.create_invitation(from, sender, receiver, stake).next.held() + amount_of(
            l.create_invitation(from, sender, receiver, stake).transfer,
        ) == l.held() + stake,
{
    if !l.has_sent(sender, receiver) {
        total_after_insert(l.invitations, (sender, receiver), stake);
    }
}

/// Withdrawing an invitation loses no stake: what is held afterwards and what
/// is returned add up to what was held before.
pub proof fn cancel_conserves_stake(l: Ledger, sender: u64, receiver: u64)
    requires
        l.consistent(),
    ensures
        l.cancel_invitation(sender, receiver).next.held() + amount_of(
            l.cancel_invitation(sender, receiver).transfer,
        ) == l.held(),
{
    if l.has_stake(sender, receiver) {
        total_after_remove(l.invitations, (sender, receiver));
    }
}

/// One call that sends or withdraws an invitation.
pub enum InvitationCall {
    Create { from: Address, sender: u64, receiver: u64, stake: u128 },
    Cancel { sender: u64, receiver: u64 },
}

impl InvitationCall {
    /// What the call does in the state `l`.
    pub open spec fn apply(self, l: Ledger) -> Step<()> {
        match self {
            InvitationCall::Create { from, sender, receiver, stake } => l.create_invitation(
                from,
                sender,
                receiver,
                stake,
            ),
            InvitationCall::Cancel { sender, receiver } => l.cancel_invitation(sender, receiver),
        }
    }

    /// The stake that the caller attaches to the call.
    pub open spec fn attached(self) -> nat {
        match self {
            InvitationCall::Create { stake, .. } => stake as nat,
            InvitationCall::Cancel { .. } => 0,
        }
    }
}

/// The state after the calls were made in order, starting from `start`.
pub open spec fn state_after(start: Ledger, calls: Seq<InvitationCall>) -> Ledger
    decreases calls.len(),
{
    if calls.len() == 0 {
        start
    } else {
        calls.last().apply(state_after(start, calls.drop_last())).next
    }
}

/// The sum of all amounts returned while the calls were made.
pub open spec fn total_refunded(start: Ledger, calls: Seq<InvitationCall>) -> nat
    decreases calls.len(),
{
    if calls.len() == 0 {
        0
    } else {
        total_refunded(start, calls.drop_last()) + amount_of(
            calls.last().apply(state_after(start, calls.drop_last())).transfer,
        )
    }
}

/// The sum of all stakes attached to the calls.
pub open spec fn total_attached(calls: Seq<InvitationCall>) -> nat
    decreases calls.len(),
{
    if calls.len() == 0 {
        0
    } else {
        total_attached(calls.drop_last()) + calls.last().attached()
    }
}

/// No stake is lost: after any sequence of calls that send and withdraw
/// invitations, the stakes returned plus the stakes still held by pending
/// invitations equal the stakes held at the start plus the stakes attached.
pub proof fn no_stake_is_lost(start: Ledger, calls: Seq<InvitationCall>)
    requires
        start.consistent(),
    ensures
        state_after(start, calls).consistent(),
        state_after(start, calls).held() + total_refunded(start, calls) == start.held() + total_attached(calls),
    decreases calls.len(),
{
    if calls.len() > 0 {
        no_stake_is_lost(start, calls.drop_last());
        let before = state_after(start, calls.drop_last());
        match calls.last() {
            InvitationCall::Create { from, sender, receiver, stake } => {
                create_keeps_consistent(before, from, sender, receiver, stake);
                create_conserves_stake(before, from, sender, receiver, stake);
            },
            InvitationCall::Cancel { sender, receiver } => {
                cancel_keeps_consistent(before, sender, receiver);
                cancel_conserves_stake(before, sender, receiver);
            },
        }
    }
}

/// There is at most one pending invitation from one user to another: once an
/// invitation was sent, a second one from the same sender to the same
/// receiver is rejected as a duplicate, changes nothing, and has its whole
/// stake returned to the address it came from.
pub proof fn second_invitation_is_rejected(
    l: Ledger,
    from: Address,
    sender: u64,
    receiver: u64,
    stake: u128,
    again_from: Address,
    again_stake: u128,
)
    requires
        l.create_invitation(from, sender, receiver, stake).result is Ok,
    ensures
        ({
            let pending = l.create_invitation(from, sender, receiver, stake).next;
            let duplicate = Bet2ChessErrors::UserAlreadyInviteThePlayer(receiver);
            let second = pending.create_invitation(again_from, sender, receiver, again_stake);
            &&& pending.has_stake(sender, receiver) && pending.invitations[(sender, receiver)] == stake
            &&& second.result == Err::<(), Bet2ChessErrors>(duplicate)
            &&& second.next == pending
            &&& second.transfer == refund_of(again_from, again_stake, Payload::Error(duplicate))
            &&& amount_of(second.transfer) == again_stake
        }),
{
}

/// Accepting needs the same stake: an invitation that was sent with one stake
/// and is accepted with another stays pending, with its stake, and the call
/// is rejected with both amounts.
pub proof fn accept_needs_the_same_stake(
    l: Ledger,
    from: Address,
    sender: u64,
    receiver: u64,
    stake: u128,
    acceptor_address: Address,
    match_id: u64,
    sender_name: Seq<char>,
    receiver_name: Seq<char>,
    offered: u128,
)
    requires
        l.create_invitation(from, sender, receiver, stake).result is Ok,
        offered != stake,
    ensures
        ({
            let pending = l.create_invitation(from, sender, receiver, stake).next;
            let accepted = pending.accept_invitation(
                acceptor_address,
                receiver,
                sender,
                match_id,
                sender_name,
                receiver_name,
                offered,
            );
            &&& accepted.result == Err::<u64, Bet2ChessErrors>(
                Bet2ChessErrors::BetIsNotTheSameForMatch { game_bet: stake, bet_by_user: offered },
            )
            &&& accepted.next == pending
            &&& amount_of(accepted.transfer) == offered
        }),
{
}

/// Accepting produces a started match in one step: after an invitation was
/// sent, accepting it with its stake succeeds, the match at the given
/// identifier is started with the sender as first and the acceptor as second
/// player, and the invitation stands in none of the three places.
pub proof fn accept_starts_the_match(
    l: Ledger,
    from: Address,
    sender: u64,
    receiver: u64,
    stake: u128,
    acceptor_address: Address,
    match_id: u64,
    sender_name: Seq<char>,
    receiver_name: Seq<char>,
)
    requires
        l.create_invitation(from, sender, receiver, stake).result is Ok,
    ensures
        ({
            let pending = l.create_invitation(from, sender, receiver, stake).next;
            let accepted = pending.accept_invitation(
                acceptor_address,
                receiver,
                sender,
                match_id,
                sender_name,
                receiver_name,
                stake,
            );
            &&& accepted.result == Ok::<u64, Bet2ChessErrors>(match_id)
            &&& accepted.transfer is None
            &&& accepted.next.games_by_id.contains_key(match_id)
            &&& accepted.next.games_by_id[match_id] == GameView {
                game_bet: stake,
                player1: from,
                player2: acceptor_address,
                player1_username: sender_name,
                player2_username: receiver_name,
                player1_web2_id: sender,
                player2_web2_id: receiver,
                winner: None,
                status: GameStatus::Started,
            }
            &&& accepted.next.games_waiting == pending.games_waiting.push(match_id)
            &&& accepted.next.games_started == pending.games_started.push(match_id)
            &&& !accepted.next.has_stake(sender, receiver)
            &&& !accepted.next.has_sent(sender, receiver)
            &&& !accepted.next.has_received(receiver, sender)
        }),
{
}

/// A match that no longer waits cannot be joined: whether it is started or
/// over, the attempt is rejected, changes nothing, and has its stake returned.
pub proof fn only_a_waiting_match_is_joined(
    l: Ledger,
    match_id: u64,
    address: Address,
    name: Seq<char>,
    id: u64,
    stake: u128,
)
    requires
        l.games_by_id.contains_key(match_id),
        l.games_by_id[match_id].status != GameStatus::Waiting,
    ensures
        l.join_match(address, name, id, stake, match_id).result == Err::<(), Bet2ChessErrors>(
            Bet2ChessErrors::GameAlreadyStart(match_id),
        ),
        l.join_match(address, name, id, stake, match_id).next == l,
        amount_of(l.join_match(address, name, id, stake, match_id).transfer) == stake,
{
}

/// A started match rejects a second player: after an invitation was accepted
/// into a match, every attempt to join that match is rejected and changes
/// nothing.
pub proof fn accepted_match_rejects_join(
    l: Ledger,
    acceptor_address: Address,
    acceptor: u64,
    inviter: u64,
    match_id: u64,
    inviter_name: Seq<char>,
    acceptor_name: Seq<char>,
    stake: u128,
    address: Address,
    name: Seq<char>,
    id: u64,
    offered: u128,
)
    requires
        l.accept_invitation(acceptor_address, acceptor, inviter, match_id, inviter_name, acceptor_name, stake).result
            is Ok,
    ensures
        ({
            let started = l.accept_invitation(
                acceptor_address,
                acceptor,
                inviter,
                match_id,
                inviter_name,
                acceptor_name,
                stake,
            ).next;
            &&& started.join_match(address, name, id, offered, match_id).result == Err::<(), Bet2ChessErrors>(
                Bet2ChessErrors::GameAlreadyStart(match_id),
            )
            &&& started.join_match(address, name, id, offered, match_id).next == started
        }),
{
}

/// Joining starts a match: after a successful join the match is started.
pub proof fn join_starts_the_match(l: Ledger, match_id: u64, address: Address, name: Seq<char>, id: u64, stake: u128)
    requires
        l.join_match(address, name, id, stake, match_id).result is Ok,
    ensures
        l.join_match(address, name, id, stake, match_id).next.games_by_id.contains_key(match_id),
        l.join_match(address, name, id, stake, match_id).next.games_by_id[match_id].status == GameStatus::Started,
{
}

/// The stake of a match is fixed when it is opened: neither joining nor
/// ending it changes it.
pub proof fn stake_of_a_match_is_fixed(
    l: Ledger,
    match_id: u64,
    address: Address,
    name: Seq<char>,
    id: u64,
    stake: u128,
    winner: Option<Address>,
)
    requires
        l.games_by_id.contains_key(match_id),
    ensures
        l.join_match(address, name, id, stake, match_id).next.games_by_id[match_id].game_bet
            == l.games_by_id[match_id].game_bet,
        l.end_match(match_id, winner).next.games_by_id[match_id].game_bet == l.games_by_id[match_id].game_bet,
{
}

/// A match that is over stays over: it cannot be joined, and ending it again
/// leaves it ended.
pub proof fn an_ended_match_stays_ended(
    l: Ledger,
    match_id: u64,
    address: Address,
    name: Seq<char>,
    id: u64,
    stake: u128,
    winner: Option<Address>,
)
    requires
        l.games_by_id.contains_key(match_id),
        l.games_by_id[match_id].status is Ended,
    ensures
        l.join_match(address, name, id, stake, match_id).result is Err,
        l.join_match(address, name, id, stake, match_id).next == l,
        l.end_match(match_id, winner).next.games_by_id[match_id].status is Ended,
{
}

/// The lists of match identifiers only grow: whatever an operation on
/// matches does, each list afterwards begins with the list before.
pub proof fn lists_only_grow(
    l: Ledger,
    match_id: u64,
    address: Address,
    name: Seq<char>,
    id: u64,
    other: u64,
    other_name: Seq<char>,
    stake: u128,
    winner: Option<Address>,
)
    ensures
        extends(l, l.create_match(address, name, id, stake, match_id)),
        extends(l, l.join_match(address, name, id, stake, match_id).next),
        extends(l, l.end_match(match_id, winner).next),
        extends(l, l.accept_invitation(address, id, other, match_id, other_name, name, stake).next),
{
}

/// The winner is paid twice the stake: ending a match with a winner asks
/// for one transfer, of twice the stake of the match, to the address
/// reported, and records as winner the first player if that is their address
/// and the second player otherwise.
pub proof fn winner_takes_the_pot(l: Ledger, match_id: u64, claimed: Address)
    requires
        l.games_by_id.contains_key(match_id),
        l.pot_fits(match_id),
    ensures
        ({
            let game = l.games_by_id[match_id];
            let ended = l.end_match(match_id, Some(claimed));
            &&& ended.result == Ok::<u64, Bet2ChessErrors>(match_id)
            &&& ended.transfer == Some(
                Transfer {
                    to: claimed,
                    amount: (2 * game.game_bet) as u128,
                    payload: Payload::Event(Bet2ChessEvents::Price),
                },
            )
            &&& amount_of(ended.transfer) == 2 * game.game_bet
            &&& ended.next.games_by_id[match_id].status == GameStatus::Ended {
                winner: Some(if claimed == game.player1 { game.player1 } else { game.player2 }),
            }
            &&& ended.next.games_by_id[match_id].game_bet == game.game_bet
        }),
{
}

/// A stake below the minimum is always returned: a call that sends or
/// accepts an invitation with some value attached, but less than one whole
/// token, is rejected, changes nothing, and has all of that value returned to
/// the address it came from.
pub proof fn below_minimum_is_returned(
    l: Ledger,
    from: Address,
    user_id: u64,
    other_id: u64,
    game_id: u64,
    other_name: Seq<char>,
    own_name: Seq<char>,
    value: u128,
)
    requires
        below_minimum(value),
    ensures
        serve_send(l, from, user_id, other_id, value) == minimum_not_met(l, from, value),
        serve_accept(l, from, user_id, other_id, game_id, other_name, own_name, value) == minimum_not_met(
            l,
            from,
            value,
        ),
        minimum_not_met(l, from, value).next == l,
        minimum_not_met(l, from, value).event == Bet2ChessEvents::Error(Bet2ChessErrors::MinAmoutToBetIsOneToken),
        minimum_not_met(l, from, value).transfer matches Some(t) && t.to == from && t.amount == value,
{
}

} // verus!
