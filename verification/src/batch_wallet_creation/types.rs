//! Requests, results, wallets and events of batch wallet creation.

use vstd::prelude::*;
use crate::address::Address;

verus! {

/// The largest number of requests in one batch.
pub const MAX_BATCH_SIZE: u32 = 100;

/// A request to create a wallet for `owner`.
#[derive(Clone, Copy, Debug, PartialEq, Eq, Structural)]
pub struct WalletCreateRequest {
    pub owner: Address,
}

/// The result of one request: the owner, and for a failure the error code.
#[derive(Clone, Copy, Debug, PartialEq, Eq, Structural)]
pub enum WalletCreateResult {
    Success(Address),
    Failure(Address, u32),
}

/// The result of a batch, with one entry of `results` per request, in the
/// order of the requests.
#[derive(Clone, Debug, PartialEq, Eq)]
pub struct BatchCreateResult {
    pub total_requests: u32,
    pub successful: u32,
    pub failed: u32,
    pub results: Vec<WalletCreateResult>,
}

/// A wallet, kept under its owner's address.
#[derive(Clone, Copy, Debug, PartialEq, Eq, Structural)]
pub struct Wallet {
    pub id: u64,
    pub owner: Address,
    pub created_at: u64,
}

/// An entry of the contract's event trail.
#[derive(Clone, Copy, Debug, PartialEq, Eq, Structural)]
pub enum WalletEvent {
    BatchStarted { batch_id: u64, request_count: u32 },
    WalletCreated { batch_id: u64, owner: Address, wallet_id: u64 },
    WalletCreationFailure { batch_id: u64, owner: Address, error_code: u32 },
    BatchCompleted { batch_id: u64, successful: u32, failed: u32 },
}

/// The events that the wallet contract appends to its trail.
pub struct WalletEvents;

impl WalletEvents {
    /// Records that batch `batch_id` has started on `request_count` requests.
    pub fn batch_started(trail: &mut Vec<WalletEvent>, batch_id: u64, request_count: u32)
        ensures
            final(trail)@ == old(trail)@.push(WalletEvent::BatchStarted { batch_id, request_count }),
    {
        trail.push(WalletEvent::BatchStarted { batch_id, request_count });
    }

    /// Records that a wallet was created for `owner` under `wallet_id`.
    pub fn wallet_created(
        trail: &mut Vec<WalletEvent>,
        batch_id: u64,
        owner: &Address,
        wallet_id: u64,
    )
        ensures
            final(trail)@ == old(trail)@.push(
                WalletEvent::WalletCreated { batch_id, owner: *owner, wallet_id },
            ),
    {
        trail.push(WalletEvent::WalletCreated { batch_id, owner: *owner, wallet_id });
    }

    /// Records that a request was refused, with its error code.
    pub fn wallet_creation_failure(
        trail: &mut Vec<WalletEvent>,
        batch_id: u64,
        owner: &Address,
        error_code: u32,
    )
        ensures
            final(trail)@ == old(trail)@.push(
                WalletEvent::WalletCreationFailure { batch_id, owner: *owner, error_code },
            ),
    {
        trail.push(WalletEvent::WalletCreationFailure { batch_id, owner: *owner, error_code });
    }

    /// Records that batch `batch_id` is complete, with its counts.
    pub fn batch_completed(
        trail: &mut Vec<WalletEvent>,
        batch_id: u64,
        successful: u32,
        failed: u32,
    )
        ensures
            final(trail)@ == old(trail)@.push(
                WalletEvent::BatchCompleted { batch_id, successful, failed },
            ),
    {
        trail.push(WalletEvent::BatchCompleted { batch_id, successful, failed });
    }
}

} // verus!
