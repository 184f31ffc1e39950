//! The engine as a whole: its state, and the services that work on it.

use crate::address::Address;
use crate::services::bet2chess_service::Bet2ChessService;
use crate::services::query_service::QueryService;
use crate::services::signless_service::SignlessService;
use crate::states::bet2chess_state::ChessState;
use crate::states::ledger::Ledger;
use crate::states::signless_accounts_state::{ContractSignlessAccounts, SignlessView};
use vstd::prelude::*;

verus! {

/// The state of the engine: invitations and matches, and the signless
/// accounts.
pub struct Bet2ChessProgram {
    pub bet2chess_state: ChessState,
    pub signless_state: ContractSignlessAccounts,
}

impl Bet2ChessProgram {
    /// The engine before anything has happened, with `creator` as its one
    /// administrator.
    pub fn new(creator: Address) -> (program: Self)
        ensures
            program.bet2chess_state@ == (Ledger { admins: seq![creator], ..Ledger::empty() }),
            program.signless_state@ == SignlessView::empty(),
            program.signless_state.wf(),
    {
        let mut chess_state = ChessState::default();
        chess_state.admins.push(creator);
        Self { bet2chess_state: chess_state, signless_state: ContractSignlessAccounts::default() }
    }

    /// The service for invitations and matches. What it does to the state is
    /// done to the state of the engine.
    pub fn bet2chess_svc(&mut self) -> (service: Bet2ChessService<'_>)
        ensures
            *service.state == old(self).bet2chess_state,
            service.signless_state_ref == &old(self).signless_state,
            final(self).bet2chess_state == *final(service.state),
            final(self).signless_state == old(self).signless_state,
    {
        Bet2ChessService::new(&mut self.bet2chess_state, &self.signless_state)
    }

    /// The service that binds signless accounts. What it does to the
    /// accounts is done to the accounts of the engine.
    pub fn signless_svc(&mut self) -> (service: SignlessService<'_>)
        ensures
            *service.data == old(self).signless_state,
            final(self).signless_state == *final(service.data),
            final(self).bet2chess_state == old(self).bet2chess_state,
    {
        SignlessService::new(&mut self.signless_state)
    }

    /// The service that answers questions.
    pub fn query_svc(&self) -> (service: QueryService<'_>)
        ensures
            service.bet2chess_state == &self.bet2chess_state,
            service.signless_state_ref == &self.signless_state,
    {
        QueryService::new(&self.bet2chess_state, &self.signless_state)
    }
}

} // verus!
