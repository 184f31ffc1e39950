//! The sum of the stakes that pending invitations hold.

use vstd::prelude::*;

verus! {

/// The sum of all stakes in a finite table of stakes.
pub open spec fn total_stake(stakes: Map<(u64, u64), u128>) -> nat
    decreases stakes.dom().len(),
    when stakes.dom().finite()
{
    if stakes.dom().len() == 0 {
        0
    } else {
        let pair = stakes.dom().choose();
        stakes[pair] as nat + total_stake(stakes.remove(pair))
    }
}

/// The total is the stake of any one invitation plus the total of the rest.
pub proof fn total_splits_at(stakes: Map<(u64, u64), u128>, pair: (u64, u64))
    requires
        stakes.dom().finite(),
        stakes.contains_key(pair),
    ensures
        total_stake(stakes) == stakes[pair] + total_stake(stakes.remove(pair)),
    decreases stakes.dom().len(),
{
    let first = stakes.dom().choose();
    if first != pair {
        total_splits_at(stakes.remove(first), pair);
        total_splits_at(stakes.remove(pair), first);
        assert(stakes.remove(first).remove(pair) =~= stakes.remove(pair).remove(first));
    }
}

/// Taking an invitation out of the table lowers the total by its stake.
pub proof fn total_after_remove(stakes: Map<(u64, u64), u128>, pair: (u64, u64))
    requires
        stakes.dom().finite(),
        stakes.contains_key(pair),
    ensures
        total_stake(stakes.remove(pair)) + stakes[pair] == total_stake(stakes),
{
    total_splits_at(stakes, pair);
}

/// Entering an invitation that the table did not hold raises the total by its
/// stake.
pub proof fn total_after_insert(stakes: Map<(u64, u64), u128>, pair: (u64, u64), stake: u128)
    requires
        stakes.dom().finite(),
        !stakes.contains_key(pair),
    ensures
        total_stake(stakes.insert(pair, stake)) == total_stake(stakes) + stake,
{
    total_splits_at(stakes.insert(pair, stake), pair);
    assert(stakes.insert(pair, stake).remove(pair) =~= stakes);
}

} // verus!
