//! Account addresses.

use vstd::prelude::*;

verus! {

/// The address of an account: 32 bytes, held as two big-endian halves.
///
/// `hi` holds bytes 0..16 and `lo` bytes 16..32.
#[derive(Clone, Copy, Debug, PartialEq, Eq, Structural, Hash)]
pub struct Address {
    pub hi: u128,
    pub lo: u128,
}

impl Address {
    /// The pair of integers by which an address is found in an ordered map.
    pub open spec fn key(self) -> (u128, u128) {
        (self.hi, self.lo)
    }

    /// The all-zero address, which stands for "no account yet".
    pub fn zero() -> (a: Address)
        ensures
            a == (Address { hi: 0, lo: 0 }),
    {
        Address { hi: 0, lo: 0 }
    }

    /// Computes [`Address::key`].
    pub fn to_key(&self) -> (k: (u128, u128))
        ensures
            k == self.key(),
    {
        (self.hi, self.lo)
    }
}

impl Default for Address {
    fn default() -> (a: Address)
        ensures
            a == (Address { hi: 0, lo: 0 }),
    {
        Address { hi: 0, lo: 0 }
    }
}

} // verus!
