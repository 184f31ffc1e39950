//! Questions about the signless accounts.

use crate::address::Address;
use crate::states::bet2chess_state::{ChessState, GameData};
use crate::states::signless_accounts_state::{ContractSignlessAccounts, SignlessAccount};
use vstd::prelude::*;

verus! {

/// The answer to a question.
#[derive(Debug)]
pub enum QueryEvent {
    GameData(GameData),
    SignlessAccountAddress(Option<Address>),
    SignlessAccountData(Option<SignlessAccount>),
}

/// The questions, on the state they read.
pub struct QueryService<'a> {
    pub bet2chess_state: &'a ChessState,
    pub signless_state_ref: &'a ContractSignlessAccounts,
}

impl<'a> QueryService<'a> {
    /// The service on the given state.
    pub fn new(bet2chess_state: &'a ChessState, signless_state_ref: &'a ContractSignlessAccounts) -> (service: Self)
        ensures
            service.bet2chess_state == bet2chess_state,
            service.signless_state_ref == signless_state_ref,
    {
        Self { bet2chess_state, signless_state_ref }
    }

    /// The signless address that the user at `user_address` is bound to.
    pub fn signless_address_from_user_address(&self, user_address: Address) -> (event: QueryEvent)
        ensures
            event matches QueryEvent::SignlessAccountAddress(found) && found
                == self.signless_state_ref@.by_user_address.get(user_address),
    {
        let key = user_address.to_key();
        let signless_address = self.signless_state_ref.signless_accounts_address_by_user_address.get(&key);
        QueryEvent::SignlessAccountAddress(
            match signless_address {
                Some(address) => Some(*address),
                None => None,
            },
        )
    }

    /// The signless address that the user without a wallet named
    /// `no_wallet_account` is bound to.
    pub fn signless_address_from_no_wallet_account(&self, no_wallet_account: String) -> (event: QueryEvent)
        ensures
            event matches QueryEvent::SignlessAccountAddress(found) && found
                == self.signless_state_ref@.by_no_wallet_name.get(no_wallet_account@),
    {
        let signless_address = self.signless_state_ref.signless_address_of_name(&no_wallet_account);
        QueryEvent::SignlessAccountAddress(signless_address)
    }

    /// A copy of the data stored for `signless_address`.
    pub fn signless_account_data(&self, signless_address: Address) -> (event: QueryEvent)
        ensures
            event matches QueryEvent::SignlessAccountData(found) && found is Some
                == self.signless_state_ref@.data.contains_key(signless_address) && (found is Some ==> found->0@
                == self.signless_state_ref@.data[signless_address]),
    {
        let key = signless_address.to_key();
        let signless_data = self.signless_state_ref.signless_data_by_signless_address.get(&key);
        let response = match signless_data {
            Some(data) => Some(data.clone()),
            None => None,
        };
        QueryEvent::SignlessAccountData(response)
    }
}

} // verus!
