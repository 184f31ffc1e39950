//! The set of identities a user has invited.
//!
//! The set itself is hashbrown's `HashSet`, as `sails_rs::collections`
//! exports it. Verus cannot look inside it, so what it holds is named by
//! [`id_set_items`], and every method below states over that name what the
//! corresponding method of the hash set does.

use sails_rs::collections::HashSet;
use vstd::prelude::*;

verus! {

/// A set of user identities, kept in hashbrown's `HashSet<u64>`.
///
/// The verifier does not look into this type: all that is known of a value
/// is what the methods below state of [`id_set_items`], and those statements
/// are taken from the documentation of the hash set, not proved.
#[verifier::external_body]
pub struct IdSet {
    inner: HashSet<u64>,
}

/// The identities that a set holds.
pub uninterp spec fn id_set_items(s: IdSet) -> Set<u64>;

impl View for IdSet {
    type V = Set<u64>;

    open spec fn view(&self) -> Set<u64> {
        id_set_items(*self)
    }
}

impl IdSet {
    /// Calls `HashSet::new`, which makes a set that holds nothing.
    #[verifier::external_body]
    pub(crate) fn new() -> (s: IdSet)
        ensures
            id_set_items(s) == Set::<u64>::empty(),
    {
        IdSet { inner: HashSet::new() }
    }

    /// Calls `HashSet::contains`, which says whether the value is in the set.
    #[verifier::external_body]
    pub(crate) fn contains(&self, id: u64) -> (found: bool)
        ensures
            found == id_set_items(*self).contains(id),
    {
        self.inner.contains(&id)
    }

    /// Calls `HashSet::insert`, which adds the value to the set and returns
    /// `true` exactly when the set did not hold it before.
    #[verifier::external_body]
    pub(crate) fn insert(&mut self, id: u64) -> (fresh: bool)
        ensures
            id_set_items(*final(self)) == id_set_items(*old(self)).insert(id),
            fresh == !id_set_items(*old(self)).contains(id),
    {
        self.inner.insert(id)
    }

    /// Calls `HashSet::remove`, which takes the value out of the set and
    /// returns whether the set held it.
    #[verifier::external_body]
    pub(crate) fn remove(&mut self, id: u64) -> (present: bool)
        ensures
            id_set_items(*final(self)) == id_set_items(*old(self)).remove(id),
            present == id_set_items(*old(self)).contains(id),
    {
        self.inner.remove(&id)
    }

    /// Calls `HashSet::iter`, which visits every element once, in an order
    /// that is not specified, and collects what it yields.
    #[verifier::external_body]
    pub(crate) fn to_vec(&self) -> (ids: Vec<u64>)
        ensures
            ids@.no_duplicates(),
            ids@.to_set() == id_set_items(*self),
    {
        self.inner.iter().copied().collect()
    }
}

} // verus!
