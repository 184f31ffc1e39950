//! Transfers of value that an operation asks its caller to perform.

use crate::address::Address;
use crate::services::bet2chess_service::Bet2ChessEvents;
use crate::states::bet2chess_state::Bet2ChessErrors;
use vstd::prelude::*;

verus! {

/// What accompanies a transfer, so that its receiver can tell why it came.
#[derive(Clone, Copy, Debug, PartialEq, Eq, Structural)]
pub enum Payload {
    /// The stake of a cancelled invitation, returned to its sender.
    Refund,
    /// The operation was rejected with this error.
    Error(Bet2ChessErrors),
    /// The event that the transfer belongs to.
    Event(Bet2ChessEvents),
}

/// An order to move `amount` to the account `to`.
#[derive(Clone, Copy, Debug, PartialEq, Eq, Structural)]
pub struct Transfer {
    pub to: Address,
    pub amount: u128,
    pub payload: Payload,
}

/// The transfer that returns `amount` to `to`: none when there is nothing to
/// return.
pub open spec fn refund_of(to: Address, amount: u128, payload: Payload) -> Option<Transfer> {
    if amount != 0 {
        Some(Transfer { to, amount, payload })
    } else {
        None
    }
}

/// Computes [`refund_of`].
pub fn refund(to: Address, amount: u128, payload: Payload) -> (t: Option<Transfer>)
    ensures
        t == refund_of(to, amount, payload),
{
    if amount != 0 {
        Some(Transfer { to, amount, payload })
    } else {
        None
    }
}

} // verus!
