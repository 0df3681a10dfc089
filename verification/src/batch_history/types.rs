//! Transaction histories.

use vstd::prelude::*;
use crate::address::Address;

verus! {

/// One transaction of a user's history.
#[derive(Clone, Debug, Eq, PartialEq)]
pub struct TransactionRecord {
    pub amount: i128,
    pub timestamp: u64,
    pub description: String,
}

/// The history of a user.
#[derive(Clone, Debug, Eq, PartialEq)]
pub struct UserHistory {
    pub user: Address,
    pub transactions: Vec<TransactionRecord>,
}

/// An entry of the contract's event trail: the history of `user` was
/// retrieved.
#[derive(Clone, Copy, Debug, Eq, PartialEq, Structural)]
pub struct HistoryEvent {
    pub user: Address,
}

} // verus!
