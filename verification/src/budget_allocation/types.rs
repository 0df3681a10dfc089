//! Requests, records and events of budget allocation.

use vstd::prelude::*;
use crate::address::Address;

verus! {

/// The largest number of requests in one batch.
pub const MAX_BATCH_SIZE: u32 = 100;

/// A request to set a user's monthly budget.
#[derive(Clone, Copy, Debug, Eq, PartialEq, Structural)]
pub struct BudgetRequest {
    /// The user to set the budget for
    pub user: Address,
    /// The monthly budget amount
    pub amount: i128,
}

/// The budget stored for a user.
#[derive(Clone, Copy, Debug, Eq, PartialEq, Structural)]
pub struct BudgetRecord {
    pub user: Address,
    pub amount: i128,
    pub last_updated: u64,
}

/// The result of a batch budget allocation.
#[derive(Clone, Copy, Debug, Eq, PartialEq, Structural)]
pub struct BatchBudgetResult {
    pub successful: u32,
    pub failed: u32,
    pub total_amount: i128,
}

/// An entry of the contract's event trail.
#[derive(Clone, Copy, Debug, Eq, PartialEq, Structural)]
pub enum BudgetEvent {
    /// A budget was set.
    BudgetSet { user: Address, amount: i128 },
    /// A request was refused; `amount` is the negative amount it asked for.
    BudgetFailed { user: Address, amount: i128 },
}

} // verus!
