//! Requests, results, balances and events of batch currency conversion.

use vstd::prelude::*;
use crate::address::Address;

verus! {

/// The largest number of requests in one batch.
pub const MAX_BATCH_SIZE: u32 = 100;

/// One conversion: `user` gives `amount_in` of `from_asset` and expects at
/// least `min_amount_out` of `to_asset`.
#[derive(Clone, Copy, Debug, PartialEq, Eq, Structural)]
pub struct ConversionRequest {
    pub user: Address,
    pub from_asset: Address,
    pub to_asset: Address,
    pub amount_in: i128,
    pub min_amount_out: i128,
}

/// The result of one request. Both variants echo the user, the two assets and
/// the amount given; `Success` ends with the amount received, `Failure` with
/// the error code.
#[derive(Clone, Copy, Debug, PartialEq, Eq, Structural)]
pub enum ConversionResult {
    Success(Address, Address, Address, i128, i128),
    Failure(Address, Address, Address, i128, u32),
}

/// The result of a batch, with one entry of `results` per request, in the
/// order of the requests.
#[derive(Clone, Debug, PartialEq, Eq)]
pub struct BatchConversionResult {
    pub total_requests: u32,
    pub successful: u32,
    pub failed: u32,
    pub total_converted: i128,
    pub results: Vec<ConversionResult>,
}

/// What `holder` owns of `asset` when a batch is entered.
#[derive(Clone, Copy, Debug, PartialEq, Eq, Structural)]
pub struct AssetBalance {
    pub holder: Address,
    pub asset: Address,
    pub amount: i128,
}

/// An entry of the contract's event trail.
#[derive(Clone, Copy, Debug, PartialEq, Eq, Structural)]
pub enum ConversionEvent {
    BatchStarted { batch_id: u64, request_count: u32 },
    ConversionSuccess {
        batch_id: u64,
        user: Address,
        from_asset: Address,
        to_asset: Address,
        amount_in: i128,
        amount_out: i128,
    },
    ConversionFailure {
        batch_id: u64,
        user: Address,
        from_asset: Address,
        to_asset: Address,
        amount_in: i128,
        error_code: u32,
    },
    BatchCompleted { batch_id: u64, successful: u32, failed: u32, total_converted: i128 },
}

/// The events that the conversion contract appends to its trail.
pub struct ConversionEvents;

impl ConversionEvents {
    /// Records that batch `batch_id` has started on `request_count` requests.
    pub fn batch_started(trail: &mut Vec<ConversionEvent>, batch_id: u64, request_count: u32)
        ensures
            final(trail)@ == old(trail)@.push(
                ConversionEvent::BatchStarted { batch_id, request_count },
            ),
    {
        trail.push(ConversionEvent::BatchStarted { batch_id, request_count });
    }

    /// Records a conversion that was carried out.
    pub fn conversion_success(
        trail: &mut Vec<ConversionEvent>,
        batch_id: u64,
        user: &Address,
        from_asset: &Address,
        to_asset: &Address,
        amount_in: i128,
        amount_out: i128,
    )
        ensures
            final(trail)@ == old(trail)@.push(
                ConversionEvent::ConversionSuccess {
                    batch_id,
                    user: *user,
                    from_asset: *from_asset,
                    to_asset: *to_asset,
                    amount_in,
                    amount_out,
                },
            ),
    {
        trail.push(
            ConversionEvent::ConversionSuccess {
                batch_id,
                user: *user,
                from_asset: *from_asset,
                to_asset: *to_asset,
                amount_in,
                amount_out,
            },
        );
    }

    /// Records a conversion that was refused, with its error code.
    pub fn conversion_failure(
        trail: &mut Vec<ConversionEvent>,
        batch_id: u64,
        user: &Address,
        from_asset: &Address,
        to_asset: &Address,
        amount_in: i128,
        error_code: u32,
    )
        ensures
            final(trail)@ == old(trail)@.push(
                ConversionEvent::ConversionFailure {
                    batch_id,
                    user: *user,
                    from_asset: *from_asset,
                    to_asset: *to_asset,
                    amount_in,
                    error_code,
                },
            ),
    {
        trail.push(
            ConversionEvent::ConversionFailure {
                batch_id,
                user: *user,
                from_asset: *from_asset,
                to_asset: *to_asset,
                amount_in,
                error_code,
            },
        );
    }

    /// Records that batch `batch_id` is complete, with its counts and total.
    pub fn batch_completed(
        trail: &mut Vec<ConversionEvent>,
        batch_id: u64,
        successful: u32,
        failed: u32,
        total_converted: i128,
    )
        ensures
            final(trail)@ == old(trail)@.push(
                ConversionEvent::BatchCompleted { batch_id, successful, failed, total_converted },
            ),
    {
        trail.push(
            ConversionEvent::BatchCompleted { batch_id, successful, failed, total_converted },
        );
    }
}

} // verus!
