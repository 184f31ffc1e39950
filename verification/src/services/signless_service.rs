//! Binding users to their signless accounts.

use crate::address::Address;
use crate::states::signless_accounts_state::{ContractSignlessAccounts, SignlessAccount, SignlessError, SignlessView};
use vstd::prelude::*;

verus! {

/// What a binding request reports back.
#[derive(Clone, Copy, Debug, PartialEq, Eq, Structural)]
pub enum SignlessEvent {
    SignlessAccountSet,
    Error(SignlessError),
}

/// The event for the result of a binding request.
pub open spec fn bound_event(result: Result<(), SignlessError>) -> SignlessEvent {
    match result {
        Ok(_) => SignlessEvent::SignlessAccountSet,
        Err(error) => SignlessEvent::Error(error),
    }
}

/// The binding requests, on the signless accounts they work on.
pub struct SignlessService<'a> {
    pub data: &'a mut ContractSignlessAccounts,
}

impl<'a> SignlessService<'a> {
    /// The signless accounts that the service works on.
    pub open spec fn accounts(&self) -> SignlessView {
        self.data@
    }

    /// The service on the given signless accounts.
    pub fn new(data: &'a mut ContractSignlessAccounts) -> (service: Self)
        ensures
            *service.data == *old(data),
            *final(data) == *final(service.data),
    {
        Self { data }
    }

    /// Binds the user at `user_address` to the signless address `caller`,
    /// the sender of the request, and stores `signless_data` for it.
    pub fn bind_signless_data_to_address(
        &mut self,
        caller: Address,
        user_address: Address,
        signless_data: SignlessAccount,
    ) -> (event: SignlessEvent)
        ensures
            event == bound_event(old(self).accounts().bind_address_result(caller, user_address)),
            final(self).accounts() == old(self).accounts().bind_address(caller, user_address, signless_data@),
            *final(final(self).data) == *final(old(self).data),
    {
        let signless_actor_id = caller;
        let result = self.data.set_signless_account_to_user_address(signless_actor_id, user_address, signless_data);
        match result {
            Err(signless_error) => SignlessEvent::Error(signless_error),
            Ok(_) => SignlessEvent::SignlessAccountSet,
        }
    }

    /// Binds the user without a wallet named `no_wallet_account` to the
    /// signless address `caller`, the sender of the request, and stores
    /// `signless_data` for it.
    pub fn bind_signless_data_to_no_wallet_account(
        &mut self,
        caller: Address,
        no_wallet_account: String,
        signless_data: SignlessAccount,
    ) -> (event: SignlessEvent)
        ensures
            event == bound_event(old(self).accounts().bind_name_result(caller, no_wallet_account@)),
            final(self).accounts() == old(self).accounts().bind_name(caller, no_wallet_account@, signless_data@),
            *final(final(self).data) == *final(old(self).data),
    {
        let signless_address = caller;
        let result = self.data.set_signless_account_to_no_wallet_name(
            signless_address,
            no_wallet_account,
            signless_data,
        );
        match result {
            Err(signless_error) => SignlessEvent::Error(signless_error),
            Ok(_) => SignlessEvent::SignlessAccountSet,
        }
    }
}

} // verus!
