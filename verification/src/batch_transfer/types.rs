//! Requests, results and events of batch transfers.

use vstd::prelude::*;
use crate::address::Address;

verus! {

/// The largest number of requests in one batch.
pub const MAX_BATCH_SIZE: u32 = 100;

/// One transfer: `amount` goes to `recipient`.
#[derive(Clone, Copy, Debug, PartialEq, Eq, Structural)]
pub struct TransferRequest {
    pub recipient: Address,
    pub amount: i128,
}

/// The result of one request. Both variants echo the recipient and the
/// amount; `Failure` ends with the error code.
#[derive(Clone, Copy, Debug, PartialEq, Eq, Structural)]
pub enum TransferResult {
    Success(Address, i128),
    Failure(Address, i128, u32),
}

/// The result of a batch, with one entry of `results` per request, in the
/// order of the requests.
#[derive(Clone, Debug, PartialEq, Eq)]
pub struct BatchTransferResult {
    pub total_requests: u32,
    pub successful: u32,
    pub failed: u32,
    pub total_transferred: i128,
    pub results: Vec<TransferResult>,
}

/// An entry of the contract's event trail.
#[derive(Clone, Copy, Debug, PartialEq, Eq, Structural)]
pub enum TransferEvent {
    BatchStarted { batch_id: u64, request_count: u32 },
    TransferSuccess { batch_id: u64, recipient: Address, amount: i128 },
    TransferFailure { batch_id: u64, recipient: Address, requested_amount: i128, error_code: u32 },
    BatchCompleted { batch_id: u64, successful: u32, failed: u32, total_transferred: i128 },
}

/// The events that the transfer contract appends to its trail.
pub struct TransferEvents;

impl TransferEvents {
    /// Records that batch `batch_id` has started on `request_count` requests.
    pub fn batch_started(trail: &mut Vec<TransferEvent>, batch_id: u64, request_count: u32)
        ensures
            final(trail)@ == old(trail)@.push(
                TransferEvent::BatchStarted { batch_id, request_count },
            ),
    {
        trail.push(TransferEvent::BatchStarted { batch_id, request_count });
    }

    /// Records a transfer that was carried out.
    pub fn transfer_success(
        trail: &mut Vec<TransferEvent>,
        batch_id: u64,
        recipient: &Address,
        amount: i128,
    )
        ensures
            final(trail)@ == old(trail)@.push(
                TransferEvent::TransferSuccess { batch_id, recipient: *recipient, amount },
            ),
    {
        trail.push(TransferEvent::TransferSuccess { batch_id, recipient: *recipient, amount });
    }

    /// Records a transfer that was refused, with its error code.
    pub fn transfer_failure(
        trail: &mut Vec<TransferEvent>,
        batch_id: u64,
        recipient: &Address,
        requested_amount: i128,
        error_code: u32,
    )
        ensures
            final(trail)@ == old(trail)@.push(
                TransferEvent::TransferFailure {
                    batch_id,
                    recipient: *recipient,
                    requested_amount,
                    error_code,
                },
            ),
    {
        trail.push(
            TransferEvent::TransferFailure {
                batch_id,
                recipient: *recipient,
                requested_amount,
                error_code,
            },
        );
    }

    /// Records that batch `batch_id` is complete, with its counts and total.
    pub fn batch_completed(
        trail: &mut Vec<TransferEvent>,
        batch_id: u64,
        successful: u32,
        failed: u32,
        total_transferred: i128,
    )
        ensures
            final(trail)@ == old(trail)@.push(
                TransferEvent::BatchCompleted { batch_id, successful, failed, total_transferred },
            ),
    {
        trail.push(
            TransferEvent::BatchCompleted { batch_id, successful, failed, total_transferred },
        );
    }
}

} // verus!
