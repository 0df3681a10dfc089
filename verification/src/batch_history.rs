//! Batch retrieval of transaction histories.

use vstd::prelude::*;
use crate::address::Address;
use crate::batch_history::logic::{get_batch_history, retrieval_events};
use crate::batch_history::types::{HistoryEvent, UserHistory};

pub mod logic;
pub mod types;

verus! {

/// The largest number of users in one batch.
pub const MAX_BATCH_SIZE: u32 = 100;

/// The errors that void a whole call.
#[derive(Copy, Clone, Debug, Eq, PartialEq, Structural)]
pub enum BatchHistoryError {
    /// Batch is empty
    EmptyBatch,
    /// Batch exceeds maximum size
    BatchTooLarge,
}

/// The error that voids a call on `n` users, if there is one.
pub open spec fn batch_error(n: int) -> Option<BatchHistoryError> {
    if n == 0 {
        Some(BatchHistoryError::EmptyBatch)
    } else if n > MAX_BATCH_SIZE {
        Some(BatchHistoryError::BatchTooLarge)
    } else {
        None
    }
}

/// The ledger state of the history contract: its event trail.
pub struct BatchHistoryContract {
    pub events: Vec<HistoryEvent>,
}

impl BatchHistoryContract {
    /// The state of a contract that was just deployed: no events.
    pub fn new() -> (c: Self)
        ensures
            c.events@ == Seq::<HistoryEvent>::empty(),
    {
        BatchHistoryContract { events: Vec::new() }
    }

    /// Checks what is asked of a call before any item is touched: that the
    /// batch holds at least one item and no more than `MAX_BATCH_SIZE`.
    pub fn check_preconditions(count: usize) -> (r: Result<(), BatchHistoryError>)
        ensures
            r == match batch_error(count as int) {
                Some(e) => Err::<(), BatchHistoryError>(e),
                None => Ok::<(), BatchHistoryError>(()),
            },
    {
        if count == 0 {
            return Err(BatchHistoryError::EmptyBatch);
        }
        if count > MAX_BATCH_SIZE as usize {
            return Err(BatchHistoryError::BatchTooLarge);
        }
        Ok(())
    }

    /// Retrieves the histories of a batch of users.
    ///
    /// The call is refused, and the trail left as it was, where the batch is
    /// empty or holds more than `MAX_BATCH_SIZE` users. Otherwise the
    /// histories come as `get_batch_history` says.
    pub fn retrieve_histories(&mut self, users: &Vec<Address>) -> (r: Result<
        Vec<UserHistory>,
        BatchHistoryError,
    >)
        ensures
            match r {
                Ok(histories) => {
                    let n = users@.len() as int;
                    &&& batch_error(n) is None
                    &&& histories@.len() == n
                    &&& forall|i: int|
                        0 <= i < n ==> (#[trigger] histories@[i]).user == users@[i]
                            && histories@[i].transactions@.len() == 0
                    &&& final(self).events@ == old(self).events@ + retrieval_events(users@, n)
                },
                Err(e) => batch_error(users@.len() as int) == Some(e)
                    && *final(self) == *old(self),
            },
    {
        match Self::check_preconditions(users.len()) {
            Err(e) => {
                return Err(e);
            },
            Ok(_) => {},
        }
        Ok(get_batch_history(&mut self.events, users))
    }
}

} // verus!
