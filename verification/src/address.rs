//! Account identifiers.

use vstd::prelude::*;

verus! {

/// An account identifier on the ledger: a 256-bit key, held as two words,
/// and a flag that tells a contract's address from an account's.
#[derive(Clone, Copy, Debug, PartialEq, Eq, Structural, Hash)]
pub struct Address {
    pub contract: bool,
    pub hi: u128,
    pub lo: u128,
}

impl Address {
    /// The account address with the given key.
    pub fn account(hi: u128, lo: u128) -> (a: Address)
        ensures
            a == (Address { contract: false, hi, lo }),
    {
        Address { contract: false, hi, lo }
    }

    /// The contract address with the given key.
    pub fn contract(hi: u128, lo: u128) -> (a: Address)
        ensures
            a == (Address { contract: true, hi, lo }),
    {
        Address { contract: true, hi, lo }
    }
}

} // verus!
