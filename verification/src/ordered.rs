//! Reading an ordered map out in the order of its keys.

use crate::address::Address;
use crate::states::bet2chess_state::GameData;
use std::collections::BTreeMap;
use vstd::prelude::*;
use vstd::std_specs::btree::{axiom_increasing_seq_meaning, spec_btree_map_iter};
use vstd::std_specs::cmp::OrdSpec;
use vstd::std_specs::iter::IteratorSpec;

verus! {

/// Whether each identifier is smaller than the one after it.
pub open spec fn ascending(ids: Seq<u64>) -> bool {
    forall|i: int, j: int| 0 <= i < j < ids.len() ==> ids[i] < ids[j]
}

/// The identifiers of a list of records, in the order of the list.
pub open spec fn ids_of(games: Seq<(u64, GameData)>) -> Seq<u64> {
    games.map_values(|entry: (u64, GameData)| entry.0)
}

/// The keys that an ordered map yields are ascending, and they are the keys
/// of the map.
proof fn keys_are_ascending<V>(map: Map<u64, V>, entries: Seq<(&u64, &V)>, ids: Seq<u64>)
    requires
        vstd::std_specs::btree::increasing_seq(entries.map_values(|entry: (&u64, &V)| *entry.0)),
        ids.len() == entries.len(),
        forall|i: int| 0 <= i < ids.len() ==> ids[i] == *entries[i].0,
        forall|i: int| 0 <= i < entries.len() ==> map.contains_key(*entries[i].0),
        forall|k: u64| map.contains_key(k) ==> entries.contains((&k, &map[k])),
    ensures
        ascending(ids),
        ids.to_set() == map.dom(),
{
    let keys = entries.map_values(|entry: (&u64, &V)| *entry.0);
    axiom_increasing_seq_meaning::<u64>(keys);
    assert forall|i: int, j: int| 0 <= i < j < ids.len() implies ids[i] < ids[j] by {
        assert(keys[i].cmp_spec(&keys[j]) is Less);
    }
    assert forall|k: u64| ids.to_set().contains(k) == map.dom().contains(k) by {
        if map.dom().contains(k) {
            let i = choose|i: int| 0 <= i < entries.len() && entries[i] == (&k, &map[k]);
            assert(ids[i] == k);
        }
    }
}

/// The keys of the map, smallest first.
pub fn keys_in_order(map: &BTreeMap<u64, Address>) -> (ids: Vec<u64>)
    ensures
        ascending(ids@),
        ids@.to_set() == map@.dom(),
{
    let mut ids: Vec<u64> = Vec::new();
    let ghost all = spec_btree_map_iter(map).remaining();
    for entry in it: map.iter()
        invariant
            it.seq() == all,
            ids@.len() == it.index(),
            forall|i: int| 0 <= i < ids@.len() ==> ids@[i] == *it.seq()[i].0,
    {
        ids.push(*entry.0);
    }
    proof {
        keys_are_ascending(map@, all, ids@);
    }
    ids
}

/// The records of the map with their identifiers, smallest identifier first.
pub fn records_in_order(map: &BTreeMap<u64, GameData>) -> (games: Vec<(u64, GameData)>)
    ensures
        ascending(ids_of(games@)),
        ids_of(games@).to_set() == map@.dom(),
        forall|i: int|
            0 <= i < games@.len() ==> map@.contains_key(#[trigger] games@[i].0) && games@[i].1@ == map@[games@[i].0]@,
{
    let mut games: Vec<(u64, GameData)> = Vec::new();
    let ghost all = spec_btree_map_iter(map).remaining();
    for entry in it: map.iter()
        invariant
            it.seq() == all,
            games@.len() == it.index(),
            forall|i: int| 0 <= i < games@.len() ==> games@[i].0 == *it.seq()[i].0,
            forall|i: int| 0 <= i < games@.len() ==> games@[i].1@ == (*it.seq()[i].1)@,
    {
        games.push((*entry.0, entry.1.clone()));
    }
    proof {
        keys_are_ascending(map@, all, ids_of(games@));
    }
    games
}

} // verus!
