//! The balances that a batch of conversions is checked against.

use vstd::prelude::*;
use crate::address::Address;
use crate::batch_conversion::types::AssetBalance;

verus! {

/// The amount of the first entry at or after `from` that is held by `holder`
/// in `asset`; 0 where there is none.
pub open spec fn balance_from(
    table: Seq<AssetBalance>,
    holder: Address,
    asset: Address,
    from: int,
) -> int
    decreases table.len() - from,
{
    if from < 0 || from >= table.len() {
        0
    } else if table[from].holder == holder && table[from].asset == asset {
        table[from].amount as int
    } else {
        balance_from(table, holder, asset, from + 1)
    }
}

/// What `holder` owns of `asset` according to `table`: the amount of the first
/// entry for the two, and 0 where the table has none.
pub open spec fn balance_of(table: Seq<AssetBalance>, holder: Address, asset: Address) -> int {
    balance_from(table, holder, asset, 0)
}

/// Looks up what `holder` owns of `asset`.
pub fn entry_balance(table: &Vec<AssetBalance>, holder: &Address, asset: &Address) -> (b: i128)
    ensures
        b == balance_of(table@, *holder, *asset),
{
    let mut i: usize = 0;
    while i < table.len()
        invariant
            i <= table.len(),
            balance_of(table@, *holder, *asset) == balance_from(table@, *holder, *asset, i as int),
        decreases table.len() - i,
    {
        if table[i].holder == *holder && table[i].asset == *asset {
            return table[i].amount;
        }
        i += 1;
    }
    0
}

} // verus!
