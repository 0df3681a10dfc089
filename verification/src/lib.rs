//! Batch operation processors for a shared ledger.
//!
//! Each contract accepts a bounded batch of per-account requests, validates
//! every item, applies the valid ones in input order and records a result and
//! an event for each, so that one bad item never aborts the batch. The ledger
//! state of a contract (its counters, stored entities and event trail) is an
//! explicit value that the entry points update.

pub mod address;
pub mod ledger_error;
pub mod store;
pub mod tally;
pub mod batch_conversion;
pub mod savings_goals;
pub mod batch_transfer;
pub mod budget_allocation;
pub mod batch_payment;
pub mod batch_notifications;
pub mod batch_history;
pub mod batch_wallet_creation;
pub mod budget_recommendations;
