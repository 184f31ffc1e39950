//! Which signing key may act for which account.
//!
//! A user hands a second key, the signless address, the right to act for
//! them. The user is known either by an address or, without a wallet, by a
//! name. Each signless address also has the data of its account.

use crate::address::Address;
use std::collections::BTreeMap;
use vstd::prelude::*;

verus! {

/// Why a signless request was turned down.
#[derive(Clone, Copy, Debug, PartialEq, Eq, Structural)]
pub enum SignlessError {
    SignlessAccountHasInvalidSession,
    SignlessAccountNotApproved,
    SignlessAddressAlreadyEsists,
    UserAddressAlreadyExists,
    UserDoesNotHasSignlessAccount,
    NoWalletAccountAlreadyExists,
    NoWalletAccountDoesNotHasSignlessAccount,
    SessionHasInvalidSignlessAccount,
}

/// The data of a signless account, as its owner stored it.
#[derive(Debug)]
pub struct SignlessAccount {
    pub address: String,
    pub encoded: String,
}

/// A signless account with its texts as sequences of characters.
pub struct SignlessAccountView {
    pub address: Seq<char>,
    pub encoded: Seq<char>,
}

impl View for SignlessAccount {
    type V = SignlessAccountView;

    open spec fn view(&self) -> SignlessAccountView {
        SignlessAccountView { address: self.address@, encoded: self.encoded@ }
    }
}

impl Default for SignlessAccount {
    fn default() -> (a: SignlessAccount)
        ensures
            a@ == (SignlessAccountView { address: Seq::empty(), encoded: Seq::empty() }),
    {
        SignlessAccount { address: String::new(), encoded: String::new() }
    }
}

impl Clone for SignlessAccount {
    fn clone(&self) -> (a: SignlessAccount)
        ensures
            a@ == self@,
    {
        SignlessAccount { address: self.address.clone(), encoded: self.encoded.clone() }
    }
}

/// The model of the signless accounts: who is bound to which signless
/// address, and the data of each signless address.
pub struct SignlessView {
    pub by_user_address: Map<Address, Address>,
    pub by_no_wallet_name: Map<Seq<char>, Address>,
    pub data: Map<Address, SignlessAccountView>,
}

impl SignlessView {
    /// No account is bound.
    pub open spec fn empty() -> SignlessView {
        SignlessView { by_user_address: Map::empty(), by_no_wallet_name: Map::empty(), data: Map::empty() }
    }

    /// Whether `signless_address` may act for the user at `user_address`: the
    /// user must be bound, and bound to that signless address.
    pub open spec fn check_address(self, signless_address: Address, user_address: Address) -> Result<
        (),
        SignlessError,
    > {
        if !self.by_user_address.contains_key(user_address) {
            Err(SignlessError::UserDoesNotHasSignlessAccount)
        } else if self.by_user_address[user_address] != signless_address {
            Err(SignlessError::SessionHasInvalidSignlessAccount)
        } else {
            Ok(())
        }
    }

    /// Whether `signless_address` may act for the user without a wallet
    /// named `name`.
    pub open spec fn check_name(self, signless_address: Address, name: Seq<char>) -> Result<(), SignlessError> {
        if !self.by_no_wallet_name.contains_key(name) {
            Err(SignlessError::UserDoesNotHasSignlessAccount)
        } else if self.by_no_wallet_name[name] != signless_address {
            Err(SignlessError::SessionHasInvalidSignlessAccount)
        } else {
            Ok(())
        }
    }

    /// The state with `data` stored for `signless_address`.
    pub open spec fn add_data(self, signless_address: Address, data: SignlessAccountView) -> SignlessView {
        SignlessView { data: self.data.insert(signless_address, data), ..self }
    }

    /// Whether the user at `user_address` can be bound to
    /// `signless_address`: neither may be in use.
    pub open spec fn bind_address_result(self, signless_address: Address, user_address: Address) -> Result<
        (),
        SignlessError,
    > {
        if self.by_user_address.contains_key(user_address) {
            Err(SignlessError::UserAddressAlreadyExists)
        } else if self.data.contains_key(signless_address) {
            Err(SignlessError::SignlessAddressAlreadyEsists)
        } else {
            Ok(())
        }
    }

    /// The state after an attempt to bind the user at `user_address` to
    /// `signless_address`: unchanged where the attempt is rejected.
    pub open spec fn bind_address(
        self,
        signless_address: Address,
        user_address: Address,
        data: SignlessAccountView,
    ) -> SignlessView {
        if self.bind_address_result(signless_address, user_address) is Ok {
            SignlessView {
                by_user_address: self.by_user_address.insert(user_address, signless_address),
                ..self.add_data(signless_address, data)
            }
        } else {
            self
        }
    }

    /// Whether the user named `name` can be bound to `signless_address`:
    /// neither may be in use.
    pub open spec fn bind_name_result(self, signless_address: Address, name: Seq<char>) -> Result<
        (),
        SignlessError,
    > {
        if self.by_no_wallet_name.contains_key(name) {
            Err(SignlessError::NoWalletAccountAlreadyExists)
        } else if self.data.contains_key(signless_address) {
            Err(SignlessError::SignlessAddressAlreadyEsists)
        } else {
            Ok(())
        }
    }

    /// The state after an attempt to bind the user named `name` to
    /// `signless_address`: unchanged where the attempt is rejected.
    pub open spec fn bind_name(
        self,
        signless_address: Address,
        name: Seq<char>,
        data: SignlessAccountView,
    ) -> SignlessView {
        if self.bind_name_result(signless_address, name) is Ok {
            SignlessView {
                by_no_wallet_name: self.by_no_wallet_name.insert(name, signless_address),
                ..self.add_data(signless_address, data)
            }
        } else {
            self
        }
    }
}

/// A map that is keyed by the keys of addresses, read as a map from
/// addresses.
pub open spec fn by_address<V>(entries: Map<(u128, u128), V>) -> Map<Address, V> {
    Map::new(|a: Address| entries.contains_key(a.key()), |a: Address| entries[a.key()])
}

/// Whether no name occurs twice in a list of names with their addresses.
pub open spec fn names_distinct(entries: Seq<(String, Address)>) -> bool {
    forall|i: int, j: int| 0 <= i < j < entries.len() ==> entries[i].0@ != entries[j].0@
}

/// A list of names with their addresses, read as a map from names. Where a
/// name occurs more than once, its last entry counts.
pub open spec fn by_name(entries: Seq<(String, Address)>) -> Map<Seq<char>, Address>
    decreases entries.len(),
{
    if entries.len() == 0 {
        Map::empty()
    } else {
        by_name(entries.drop_last()).insert(entries.last().0@, entries.last().1)
    }
}

/// A name that no entry has is not in the map.
proof fn by_name_lacks(entries: Seq<(String, Address)>, name: Seq<char>)
    requires
        forall|i: int| 0 <= i < entries.len() ==> entries[i].0@ != name,
    ensures
        !by_name(entries).contains_key(name),
    decreases entries.len(),
{
    if entries.len() > 0 {
        by_name_lacks(entries.drop_last(), name);
    }
}

/// The map takes a name to the address of the last entry that has it.
proof fn by_name_finds(entries: Seq<(String, Address)>, name: Seq<char>, index: int)
    requires
        0 <= index < entries.len(),
        entries[index].0@ == name,
        forall|i: int| index < i < entries.len() ==> entries[i].0@ != name,
    ensures
        by_name(entries).contains_key(name),
        by_name(entries)[name] == entries[index].1,
    decreases entries.len(),
{
    if index < entries.len() - 1 {
        by_name_finds(entries.drop_last(), name, index);
    }
}

/// Every name in the list is in the map.
proof fn by_name_has(entries: Seq<(String, Address)>, index: int)
    requires
        0 <= index < entries.len(),
    ensures
        by_name(entries).contains_key(entries[index].0@),
    decreases entries.len(),
{
    if index < entries.len() - 1 {
        by_name_has(entries.drop_last(), index);
    }
}

/// Adding an entry adds it to the map, and keeps the names distinct if the
/// name is new.
proof fn by_name_after_push(entries: Seq<(String, Address)>, name: String, address: Address)
    ensures
        by_name(entries.push((name, address))) == by_name(entries).insert(name@, address),
        names_distinct(entries) && !by_name(entries).contains_key(name@) ==> names_distinct(
            entries.push((name, address)),
        ),
{
    let longer = entries.push((name, address));
    assert(longer.drop_last() =~= entries);
    if names_distinct(entries) && !by_name(entries).contains_key(name@) {
        assert forall|i: int, j: int| 0 <= i < j < longer.len() implies longer[i].0@ != longer[j].0@ by {
            if j == entries.len() {
                by_name_has(entries, i);
            }
        }
    }
}

/// The signless accounts.
///
/// The first and the last map are keyed by [`Address::key`]. The users
/// without a wallet are a list of names, each with the signless address it
/// is bound to, in which no name occurs twice.
pub struct ContractSignlessAccounts {
    pub signless_accounts_address_by_user_address: BTreeMap<(u128, u128), Address>,
    pub signless_accounts_address_by_no_wallet_name: Vec<(String, Address)>,
    pub signless_data_by_signless_address: BTreeMap<(u128, u128), SignlessAccount>,
}

impl View for ContractSignlessAccounts {
    type V = SignlessView;

    open spec fn view(&self) -> SignlessView {
        SignlessView {
            by_user_address: by_address(self.signless_accounts_address_by_user_address@),
            by_no_wallet_name: by_name(self.signless_accounts_address_by_no_wallet_name@),
            data: by_address(self.signless_data_by_signless_address@.map_values(|a: SignlessAccount| a@)),
        }
    }
}

impl Default for ContractSignlessAccounts {
    fn default() -> (s: ContractSignlessAccounts)
        ensures
            s.wf(),
            s@ == SignlessView::empty(),
    {
        let s = ContractSignlessAccounts {
            signless_accounts_address_by_user_address: BTreeMap::new(),
            signless_accounts_address_by_no_wallet_name: Vec::new(),
            signless_data_by_signless_address: BTreeMap::new(),
        };
        assert(s@.by_user_address =~= Map::empty());
        assert(s@.data =~= Map::empty());
        s
    }
}

impl ContractSignlessAccounts {
    /// Whether no name occurs twice among the users without a wallet.
    pub open spec fn wf(&self) -> bool {
        names_distinct(self.signless_accounts_address_by_no_wallet_name@)
    }

    /// The signless address that the user named `name` is bound to.
    pub fn signless_address_of_name(&self, name: &String) -> (found: Option<Address>)
        ensures
            found == self@.by_no_wallet_name.get(name@),
    {
        let entries = &self.signless_accounts_address_by_no_wallet_name;
        let mut index: usize = entries.len();
        while index > 0
            invariant
                index <= entries.len(),
                entries@ == self.signless_accounts_address_by_no_wallet_name@,
                forall|i: int| index <= i < entries.len() ==> entries@[i].0@ != name@,
            decreases index,
        {
            index = index - 1;
            if entries[index].0 == *name {
                proof {
                    by_name_finds(entries@, name@, index as int);
                }
                return Some(entries[index].1);
            }
        }
        proof {
            by_name_lacks(entries@, name@);
        }
        None
    }

    /// Says whether `signless_address` may act for the user at
    /// `user_address`.
    pub fn check_signless_address_by_user_address(&self, signless_address: Address, user_address: Address) -> (checked:
        Result<(), SignlessError>)
        ensures
            checked == self@.check_address(signless_address, user_address),
    {
        let key = user_address.to_key();
        match self.signless_accounts_address_by_user_address.get(&key) {
            None => Err(SignlessError::UserDoesNotHasSignlessAccount),
            Some(bound) => {
                if signless_address != *bound {
                    Err(SignlessError::SessionHasInvalidSignlessAccount)
                } else {
                    Ok(())
                }
            },
        }
    }

    /// Says whether `signless_address` may act for the user without a wallet
    /// named `no_wallet_name_encoded`.
    pub fn check_signless_address_by_no_wallet_account(
        &self,
        signless_address: Address,
        no_wallet_name_encoded: String,
    ) -> (checked: Result<(), SignlessError>)
        ensures
            checked == self@.check_name(signless_address, no_wallet_name_encoded@),
    {
        match self.signless_address_of_name(&no_wallet_name_encoded) {
            None => Err(SignlessError::UserDoesNotHasSignlessAccount),
            Some(bound) => {
                if signless_address != bound {
                    Err(SignlessError::SessionHasInvalidSignlessAccount)
                } else {
                    Ok(())
                }
            },
        }
    }

    /// Stores `signless_data` as the data of `signless_address`, in place of
    /// what was stored for it before.
    pub fn add_signless_data_to_state(&mut self, signless_address: Address, signless_data: SignlessAccount)
        ensures
            final(self)@ == old(self)@.add_data(signless_address, signless_data@),
            final(self).signless_accounts_address_by_no_wallet_name == old(
                self,
            ).signless_accounts_address_by_no_wallet_name,
    {
        self.signless_data_by_signless_address.insert(signless_address.to_key(), signless_data);
        assert(self@.data =~= old(self)@.data.insert(signless_address, signless_data@));
    }

    /// Binds the user at `user_address` to `signless_address` and stores the
    /// data of the signless account, unless one of the two is in use.
    pub fn set_signless_account_to_user_address(
        &mut self,
        signless_address: Address,
        user_address: Address,
        signless_data: SignlessAccount,
    ) -> (bound: Result<(), SignlessError>)
        ensures
            bound == old(self)@.bind_address_result(signless_address, user_address),
            final(self)@ == old(self)@.bind_address(signless_address, user_address, signless_data@),
            final(self).signless_accounts_address_by_no_wallet_name == old(
                self,
            ).signless_accounts_address_by_no_wallet_name,
    {
        if self.signless_accounts_address_by_user_address.contains_key(&user_address.to_key()) {
            return Err(SignlessError::UserAddressAlreadyExists);
        }
        if self.signless_data_by_signless_address.contains_key(&signless_address.to_key()) {
            return Err(SignlessError::SignlessAddressAlreadyEsists);
        }
        self.add_signless_data_to_state(signless_address, signless_data);
        self.signless_accounts_address_by_user_address.insert(user_address.to_key(), signless_address);
        assert(self@.by_user_address =~= old(self)@.by_user_address.insert(user_address, signless_address));
        Ok(())
    }

    /// Binds the user without a wallet named `no_wallet_name_encoded` to
    /// `signless_address` and stores the data of the signless account,
    /// unless one of the two is in use.
    pub fn set_signless_account_to_no_wallet_name(
        &mut self,
        signless_address: Address,
        no_wallet_name_encoded: String,
        signless_data: SignlessAccount,
    ) -> (bound: Result<(), SignlessError>)
        ensures
            old(self).wf() ==> final(self).wf(),
            bound == old(self)@.bind_name_result(signless_address, no_wallet_name_encoded@),
            final(self)@ == old(self)@.bind_name(signless_address, no_wallet_name_encoded@, signless_data@),
    {
        if self.signless_address_of_name(&no_wallet_name_encoded).is_some() {
            return Err(SignlessError::NoWalletAccountAlreadyExists);
        }
        if self.signless_data_by_signless_address.contains_key(&signless_address.to_key()) {
            return Err(SignlessError::SignlessAddressAlreadyEsists);
        }
        self.add_signless_data_to_state(signless_address, signless_data);
        proof {
            by_name_after_push(
                self.signless_accounts_address_by_no_wallet_name@,
                no_wallet_name_encoded,
                signless_address,
            );
        }
        self.signless_accounts_address_by_no_wallet_name.push((no_wallet_name_encoded, signless_address));
        Ok(())
    }
}

} // verus!
