//! Payments and their events.

use vstd::prelude::*;
use crate::address::Address;

verus! {

/// One payment: `amount` goes to `recipient`.
#[derive(Clone, Copy, Debug, Eq, PartialEq, Structural)]
pub struct Payment {
    pub recipient: Address,
    pub amount: i128,
}

/// An entry of the contract's event trail.
#[derive(Clone, Copy, Debug, Eq, PartialEq, Structural)]
pub enum PaymentEvent {
    /// One payment of `amount` of `token` to `recipient`.
    Payment { batch_id: u64, recipient: Address, token: Address, amount: i128 },
    /// The end of a batch, with the number of its payments and their total.
    BatchComplete { batch_id: u64, total_payments: u32, total_amount: i128 },
}

} // verus!
