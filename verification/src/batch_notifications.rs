//! Batch notifications.

use vstd::prelude::*;
use crate::batch_notifications::logic::{
    delivered_flags, delivery_events, execute_dispatch, failed_users,
};
use crate::batch_notifications::types::{BatchResult, NotificationEvent, NotificationPayload};
use crate::tally::count_true;

pub mod logic;
pub mod types;

verus! {

/// The largest number of payloads in one batch.
pub const MAX_BATCH_SIZE: u32 = 100;

/// The errors that void a whole call.
#[derive(Copy, Clone, Debug, Eq, PartialEq, Structural)]
pub enum BatchNotificationError {
    /// Batch is empty
    EmptyBatch,
    /// Batch exceeds maximum size
    BatchTooLarge,
}

/// The error that voids a call on `n` payloads, if there is one.
pub open spec fn batch_error(n: int) -> Option<BatchNotificationError> {
    if n == 0 {
        Some(BatchNotificationError::EmptyBatch)
    } else if n > MAX_BATCH_SIZE {
        Some(BatchNotificationError::BatchTooLarge)
    } else {
        None
    }
}

/// The ledger state of the notification contract: its event trail.
pub struct BatchNotificationContract {
    pub events: Vec<NotificationEvent>,
}

impl BatchNotificationContract {
    /// The state of a contract that was just deployed: no events.
    pub fn new() -> (c: Self)
        ensures
            c.events@ == Seq::<NotificationEvent>::empty(),
    {
        BatchNotificationContract { events: Vec::new() }
    }

    /// Checks what is asked of a call before any item is touched: that the
    /// batch holds at least one item and no more than `MAX_BATCH_SIZE`.
    pub fn check_preconditions(count: usize) -> (r: Result<(), BatchNotificationError>)
        ensures
            r == match batch_error(count as int) {
                Some(e) => Err::<(), BatchNotificationError>(e),
                None => Ok::<(), BatchNotificationError>(()),
            },
    {
        if count == 0 {
            return Err(BatchNotificationError::EmptyBatch);
        }
        if count > MAX_BATCH_SIZE as usize {
            return Err(BatchNotificationError::BatchTooLarge);
        }
        Ok(())
    }

    /// Sends a batch of notifications.
    ///
    /// The call is refused, and the trail left as it was, where the batch is
    /// empty or holds more than `MAX_BATCH_SIZE` payloads. Otherwise the
    /// payloads are dispatched as `execute_dispatch` says.
    pub fn batch_notify(&mut self, payloads: &Vec<NotificationPayload>) -> (r: Result<
        BatchResult,
        BatchNotificationError,
    >)
        ensures
            match r {
                Ok(result) => {
                    let n = payloads@.len() as int;
                    &&& batch_error(n) is None
                    &&& result.successful_count == count_true(delivered_flags(payloads@), n)
                    &&& result.failed_addresses@ == failed_users(payloads@, n)
                    &&& result.successful_count + result.failed_addresses@.len() == n
                    &&& final(self).events@ == old(self).events@ + delivery_events(payloads@, n)
                },
                Err(e) => batch_error(payloads@.len() as int) == Some(e)
                    && *final(self) == *old(self),
            },
    {
        match Self::check_preconditions(payloads.len()) {
            Err(e) => {
                return Err(e);
            },
            Ok(_) => {},
        }
        // Run the batch logic
        Ok(execute_dispatch(&mut self.events, payloads))
    }
}

} // verus!
