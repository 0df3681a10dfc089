//! Notification payloads, results and events.

use vstd::prelude::*;
use crate::address::Address;

verus! {

/// A message for a user.
#[derive(Clone, Debug, Eq, PartialEq)]
pub struct NotificationPayload {
    pub user: Address,
    pub message: String,
}

/// The result of a batch: how many messages were delivered, and the users
/// whose message was not, in input order.
#[derive(Clone, Debug, Eq, PartialEq)]
pub struct BatchResult {
    pub successful_count: u32,
    pub failed_addresses: Vec<Address>,
}

/// An entry of the contract's event trail: a message delivered to a user.
#[derive(Clone, Debug, Eq, PartialEq)]
pub struct NotificationEvent {
    pub user: Address,
    pub message: String,
}

} // verus!
