//! The state that the engine keeps, and the rules that change it.

pub mod bet2chess_state;
pub mod ledger;
pub mod signless_accounts_state;
pub mod totals;
