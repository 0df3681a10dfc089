//! Batch transfers from the administrator to many recipients.
//!
//! A batch is validated item by item, then executed in input order against
//! the balance that the caller had when the batch was entered: each transfer
//! carried out takes its amount from what is left for the ones after it.

use vstd::prelude::*;
use crate::address::Address;
use crate::ledger_error::{contract_error, from_contract_error};
use crate::tally::{
    accumulate, count_true, saturating_sum, saturating_total, AlreadyInitialized,
    ValidationOutcome,
};
use crate::batch_transfer::types::{
    BatchTransferResult, TransferEvent, TransferEvents, TransferRequest, TransferResult,
    MAX_BATCH_SIZE,
};
use crate::batch_transfer::validation::{validate_address, validate_amount};

pub mod types;
pub mod validation;

verus! {

/// Item code: the recipient's address is invalid.
pub const INVALID_ADDRESS: u32 = 0;

/// Item code: the amount is not positive.
pub const INVALID_AMOUNT: u32 = 1;

/// Item code: the caller's balance no longer covers the amount.
pub const INSUFFICIENT_BALANCE: u32 = 2;

/// The errors that void a whole call.
#[derive(Copy, Clone, Debug, Eq, PartialEq, Structural)]
pub enum BatchTransferError {
    /// Contract not initialized
    NotInitialized,
    /// Caller is not authorized
    Unauthorized,
    /// Invalid batch data
    InvalidBatch,
    /// Batch is empty
    EmptyBatch,
    /// Batch exceeds maximum size
    BatchTooLarge,
    /// Invalid token contract
    InvalidToken,
}

impl BatchTransferError {
    /// The number under which the ledger reports this error.
    pub open spec fn spec_code(self) -> u32 {
        match self {
            BatchTransferError::NotInitialized => 1,
            BatchTransferError::Unauthorized => 2,
            BatchTransferError::InvalidBatch => 3,
            BatchTransferError::EmptyBatch => 4,
            BatchTransferError::BatchTooLarge => 5,
            BatchTransferError::InvalidToken => 6,
        }
    }

    /// The number under which the ledger reports this error.
    pub fn code(self) -> (c: u32)
        ensures
            c == self.spec_code(),
    {
        match self {
            BatchTransferError::NotInitialized => 1,
            BatchTransferError::Unauthorized => 2,
            BatchTransferError::InvalidBatch => 3,
            BatchTransferError::EmptyBatch => 4,
            BatchTransferError::BatchTooLarge => 5,
            BatchTransferError::InvalidToken => 6,
        }
    }
}

impl From<BatchTransferError> for soroban_sdk::Error {
    /// The ledger's error value for `e`.
    fn from(e: BatchTransferError) -> (error: Self) {
        from_contract_error(e.code())
    }
}

impl vstd::std_specs::convert::FromSpecImpl<BatchTransferError> for soroban_sdk::Error {
    open spec fn obeys_from_spec() -> bool {
        true
    }

    open spec fn from_spec(e: BatchTransferError) -> Self {
        contract_error(e.spec_code())
    }
}

/// What validation says of a request by its own fields.
pub open spec fn validation_outcome(r: TransferRequest) -> ValidationOutcome {
    if r.amount <= 0 {
        ValidationOutcome { valid: false, error_code: INVALID_AMOUNT }
    } else {
        ValidationOutcome { valid: true, error_code: 0 }
    }
}

/// What is left of `balance` once the first `k` requests are processed: each
/// valid request that the rest still covers takes its amount.
pub open spec fn remaining(reqs: Seq<TransferRequest>, balance: int, k: int) -> int
    decreases k,
{
    if k <= 0 {
        balance
    } else {
        let r = reqs[k - 1];
        let before = remaining(reqs, balance, k - 1);
        if r.amount > 0 && before >= r.amount {
            before - r.amount
        } else {
            before
        }
    }
}

/// Whether request `i` is carried out: its amount is positive, and covered by
/// what is left when its turn comes.
pub open spec fn transfers(reqs: Seq<TransferRequest>, balance: int, i: int) -> bool {
    reqs[i].amount > 0 && remaining(reqs, balance, i) >= reqs[i].amount
}

/// The result recorded for request `i`.
pub open spec fn outcome(reqs: Seq<TransferRequest>, balance: int, i: int) -> TransferResult {
    let r = reqs[i];
    if r.amount <= 0 {
        TransferResult::Failure(r.recipient, r.amount, INVALID_AMOUNT)
    } else if remaining(reqs, balance, i) < r.amount {
        TransferResult::Failure(r.recipient, r.amount, INSUFFICIENT_BALANCE)
    } else {
        TransferResult::Success(r.recipient, r.amount)
    }
}

/// The results of a batch: one per request, in the order of the requests.
pub open spec fn batch_results(reqs: Seq<TransferRequest>, balance: int) -> Seq<TransferResult> {
    Seq::new(reqs.len(), |i: int| outcome(reqs, balance, i))
}

/// For each request, whether it is carried out.
pub open spec fn success_flags(reqs: Seq<TransferRequest>, balance: int) -> Seq<bool> {
    Seq::new(reqs.len(), |i: int| transfers(reqs, balance, i))
}

/// For each request, the amount that it moves: its own where it is carried
/// out, nothing where it is not.
pub open spec fn transferred_amounts(reqs: Seq<TransferRequest>, balance: int) -> Seq<int> {
    Seq::new(
        reqs.len(),
        |i: int|
            if transfers(reqs, balance, i) {
                reqs[i].amount as int
            } else {
                0int
            },
    )
}

/// The event that reports one result.
pub open spec fn item_event(batch_id: u64, result: TransferResult) -> TransferEvent {
    match result {
        TransferResult::Success(recipient, amount) => TransferEvent::TransferSuccess {
            batch_id,
            recipient,
            amount,
        },
        TransferResult::Failure(recipient, requested_amount, error_code) => {
            TransferEvent::TransferFailure { batch_id, recipient, requested_amount, error_code }
        },
    }
}

/// The events of the first `k` results of a batch, in order.
pub open spec fn item_events(batch_id: u64, results: Seq<TransferResult>, k: int) -> Seq<
    TransferEvent,
> {
    Seq::new(k as nat, |i: int| item_event(batch_id, results[i]))
}

/// The events of a whole batch: its start, one event per result, its end.
pub open spec fn batch_events(batch_id: u64, result: BatchTransferResult) -> Seq<TransferEvent> {
    seq![TransferEvent::BatchStarted { batch_id, request_count: result.total_requests }]
        + item_events(batch_id, result.results@, result.results@.len() as int)
        + seq![
        TransferEvent::BatchCompleted {
            batch_id,
            successful: result.successful,
            failed: result.failed,
            total_transferred: result.total_transferred,
        },
    ]
}

/// The error that voids a call by `caller` on `n` requests, if there is one.
/// The administrator is checked before the size of the batch.
pub open spec fn batch_error(admin: Option<Address>, caller: Address, n: int) -> Option<
    BatchTransferError,
> {
    if admin is None {
        Some(BatchTransferError::NotInitialized)
    } else if admin != Some(caller) {
        Some(BatchTransferError::Unauthorized)
    } else if n == 0 {
        Some(BatchTransferError::EmptyBatch)
    } else if n > MAX_BATCH_SIZE {
        Some(BatchTransferError::BatchTooLarge)
    } else {
        None
    }
}

/// Whether a result echoes the recipient and the amount of a request.
pub open spec fn echoes(result: TransferResult, r: TransferRequest) -> bool {
    match result {
        TransferResult::Success(recipient, amount) => recipient == r.recipient && amount
            == r.amount,
        TransferResult::Failure(recipient, amount, _) => recipient == r.recipient && amount
            == r.amount,
    }
}

/// What a batch moves is what leaves the balance: the total of the first `k`
/// requests and what is left after them add up to the balance at entry, and
/// the total never reaches the bounds at which it would be held.
pub proof fn lemma_total_is_spent(reqs: Seq<TransferRequest>, balance: int, k: int)
    requires
        0 <= k <= reqs.len(),
        balance <= i128::MAX,
    ensures
        saturating_total(transferred_amounts(reqs, balance), k) == balance - remaining(
            reqs,
            balance,
            k,
        ),
        remaining(reqs, balance, k) <= balance,
        remaining(reqs, balance, k) < balance ==> 0 <= remaining(reqs, balance, k),
    decreases k,
{
    if k > 0 {
        lemma_total_is_spent(reqs, balance, k - 1);
    }
}

/// Validates one request by its own fields.
pub fn validate_request(request: &TransferRequest) -> (v: ValidationOutcome)
    ensures
        v == validation_outcome(*request),
{
    if validate_address(&request.recipient).is_err() {
        ValidationOutcome { valid: false, error_code: INVALID_ADDRESS }
    } else if validate_amount(request.amount).is_err() {
        ValidationOutcome { valid: false, error_code: INVALID_AMOUNT }
    } else {
        ValidationOutcome { valid: true, error_code: 0 }
    }
}

/// The ledger state of the transfer contract: its administrator, its running
/// counters and its event trail.
pub struct BatchTransferContract {
    pub admin: Option<Address>,
    pub total_batches: u64,
    pub total_transfers_processed: u64,
    pub total_volume_transferred: i128,
    pub events: Vec<TransferEvent>,
}

impl BatchTransferContract {
    /// Whether the counters can take one more batch of any accepted size.
    pub open spec fn has_room(&self) -> bool {
        self.total_batches < u64::MAX && self.total_transfers_processed <= u64::MAX
            - MAX_BATCH_SIZE
    }

    /// Whether `post` is `pre` after a batch on `reqs` against `balance` that
    /// returned `result`.
    pub open spec fn committed(
        pre: Self,
        post: Self,
        balance: int,
        reqs: Seq<TransferRequest>,
        result: BatchTransferResult,
    ) -> bool {
        let n = reqs.len() as int;
        let successes = count_true(success_flags(reqs, balance), n);
        &&& result.total_requests == n
        &&& result.results@ == batch_results(reqs, balance)
        &&& result.successful == successes
        &&& result.failed == n - successes
        &&& result.total_transferred == saturating_total(transferred_amounts(reqs, balance), n)
        &&& post.admin == pre.admin
        &&& post.total_batches == pre.total_batches + 1
        &&& post.total_transfers_processed == pre.total_transfers_processed + n
        &&& post.total_volume_transferred == saturating_sum(
            result.total_transferred as int,
            pre.total_volume_transferred as int,
        )
        &&& post.events@ == pre.events@ + batch_events(post.total_batches, result)
    }

    /// The state of a contract that was just deployed: no administrator, all
    /// counters at 0, no events.
    pub fn new() -> (c: Self)
        ensures
            c.admin is None,
            c.total_batches == 0,
            c.total_transfers_processed == 0,
            c.total_volume_transferred == 0,
            c.events@ == Seq::<TransferEvent>::empty(),
            c.has_room(),
    {
        BatchTransferContract {
            admin: None,
            total_batches: 0,
            total_transfers_processed: 0,
            total_volume_transferred: 0,
            events: Vec::new(),
        }
    }

    /// Initializes the contract with its administrator and resets the
    /// counters. A contract that has an administrator is left as it is.
    pub fn initialize(&mut self, admin: Address) -> (r: Result<(), AlreadyInitialized>)
        ensures
            old(self).admin is Some ==> r is Err && *final(self) == *old(self),
            old(self).admin is None ==> r is Ok,
            old(self).admin is None ==> final(self).admin == Some(admin),
            old(self).admin is None ==> final(self).total_batches == 0,
            old(self).admin is None ==> final(self).total_transfers_processed == 0,
            old(self).admin is None ==> final(self).total_volume_transferred == 0,
            old(self).admin is None ==> final(self).events == old(self).events,
    {
        if self.admin.is_some() {
            return Err(AlreadyInitialized);
        }
        self.admin = Some(admin);
        self.total_batches = 0;
        self.total_transfers_processed = 0;
        self.total_volume_transferred = 0;
        Ok(())
    }

    /// Whether the counters can take one more batch of any accepted size.
    pub fn can_accept_batch(&self) -> (b: bool)
        ensures
            b == self.has_room(),
    {
        let limit: u64 = u64::MAX - MAX_BATCH_SIZE as u64;
        self.total_batches < u64::MAX && self.total_transfers_processed <= limit
    }

    /// Transfers to a batch of recipients out of `available_balance`, the
    /// balance that `caller` has as the batch is entered.
    ///
    /// The call is refused, and the contract left as it was, where the
    /// contract has no administrator, `caller` is not the administrator, the
    /// batch is empty, or it holds more than `MAX_BATCH_SIZE` requests.
    /// Otherwise every request gets a result, in input order: a failure with
    /// the code for an invalid amount, or for an insufficient balance where
    /// what is left does not cover the amount; else a success, which takes
    /// the amount from what is left. The counters move once, after the last
    /// request.
    pub fn batch_transfer(
        &mut self,
        caller: Address,
        available_balance: i128,
        transfers: &Vec<TransferRequest>,
    ) -> (r: Result<BatchTransferResult, BatchTransferError>)
        requires
            old(self).has_room(),
        ensures
            match r {
                Ok(result) => {
                    &&& batch_error(old(self).admin, caller, transfers@.len() as int) is None
                    &&& Self::committed(
                        *old(self),
                        *final(self),
                        available_balance as int,
                        transfers@,
                        result,
                    )
                    &&& result.results@.len() == result.total_requests
                    &&& result.successful + result.failed == result.total_requests
                    &&& forall|i: int|
                        0 <= i < transfers@.len() ==> echoes(
                            #[trigger] result.results@[i],
                            transfers@[i],
                        )
                    &&& result.total_transferred == available_balance - remaining(
                        transfers@,
                        available_balance as int,
                        transfers@.len() as int,
                    )
                },
                Err(e) => batch_error(old(self).admin, caller, transfers@.len() as int) == Some(e)
                    && *final(self) == *old(self),
            },
    {
        let count = transfers.len();
        match self.check_preconditions(&caller, count) {
            Err(e) => {
                return Err(e);
            },
            Ok(_) => {},
        }
        let request_count: u32 = count as u32;
        let batch_id: u64 = self.total_batches + 1;
        let ghost pre_events = self.events@;
        let ghost reqs = transfers@;
        let ghost balance = available_balance as int;

        TransferEvents::batch_started(&mut self.events, batch_id, request_count);

        // First pass: validate all requests
        let mut validated: Vec<ValidationOutcome> = Vec::new();
        let mut i: usize = 0;
        while i < count
            invariant
                i <= count,
                count == transfers.len(),
                reqs == transfers@,
                validated.len() == i,
                forall|j: int| 0 <= j < i ==> validated@[j] == validation_outcome(reqs[j]),
            decreases count - i,
        {
            validated.push(validate_request(&transfers[i]));
            i += 1;
        }

        // Second pass: process each request
        let mut results: Vec<TransferResult> = Vec::new();
        let mut successful_count: u32 = 0;
        let mut failed_count: u32 = 0;
        let mut total_transferred: i128 = 0;
        let mut available = available_balance;
        let mut i: usize = 0;
        while i < count
            invariant
                i <= count,
                0 < count <= MAX_BATCH_SIZE,
                count == transfers.len(),
                reqs == transfers@,
                balance == available_balance,
                validated.len() == count,
                forall|j: int| 0 <= j < count ==> validated@[j] == validation_outcome(reqs[j]),
                results.len() == i,
                forall|j: int| 0 <= j < i ==> results@[j] == outcome(reqs, balance, j),
                successful_count == count_true(success_flags(reqs, balance), i as int),
                failed_count == i - successful_count,
                successful_count <= i,
                available == remaining(reqs, balance, i as int),
                total_transferred == saturating_total(
                    transferred_amounts(reqs, balance),
                    i as int,
                ),
                self.events@ == pre_events + seq![
                    TransferEvent::BatchStarted { batch_id, request_count },
                ] + item_events(batch_id, results@, i as int),
                self.admin == old(self).admin,
                self.total_batches == old(self).total_batches,
                self.total_transfers_processed == old(self).total_transfers_processed,
                self.total_volume_transferred == old(self).total_volume_transferred,
            decreases count - i,
        {
            let request = &transfers[i];
            let outcome_i = validated[i];
            let ghost results_before = results@;
            if !outcome_i.valid {
                // Validation failed - record and continue
                results.push(
                    TransferResult::Failure(
                        request.recipient,
                        request.amount,
                        outcome_i.error_code,
                    ),
                );
                failed_count += 1;
                TransferEvents::transfer_failure(
                    &mut self.events,
                    batch_id,
                    &request.recipient,
                    request.amount,
                    outcome_i.error_code,
                );
            } else if available < request.amount {
                // Insufficient balance
                results.push(
                    TransferResult::Failure(
                        request.recipient,
                        request.amount,
                        INSUFFICIENT_BALANCE,
                    ),
                );
                failed_count += 1;
                TransferEvents::transfer_failure(
                    &mut self.events,
                    batch_id,
                    &request.recipient,
                    request.amount,
                    INSUFFICIENT_BALANCE,
                );
            } else {
                available = available - request.amount;
                results.push(TransferResult::Success(request.recipient, request.amount));
                successful_count += 1;
                total_transferred = accumulate(total_transferred, request.amount);
                TransferEvents::transfer_success(
                    &mut self.events,
                    batch_id,
                    &request.recipient,
                    request.amount,
                );
            }
            proof {
                assert(results@[i as int] == outcome(reqs, balance, i as int));
                assert(item_events(batch_id, results@, i + 1) =~= item_events(
                    batch_id,
                    results_before,
                    i as int,
                ).push(item_event(batch_id, results@[i as int])));
            }
            i += 1;
        }

        // Update the counters, once for the whole batch
        self.total_batches = batch_id;
        self.total_transfers_processed = self.total_transfers_processed + count as u64;
        self.total_volume_transferred = accumulate(
            total_transferred,
            self.total_volume_transferred,
        );

        TransferEvents::batch_completed(
            &mut self.events,
            batch_id,
            successful_count,
            failed_count,
            total_transferred,
        );

        let result = BatchTransferResult {
            total_requests: request_count,
            successful: successful_count,
            failed: failed_count,
            total_transferred,
            results,
        };
        proof {
            assert(result.results@ =~= batch_results(reqs, balance));
            assert(self.events@ =~= pre_events + batch_events(batch_id, result));
            lemma_total_is_spent(reqs, balance, count as int);
        }
        Ok(result)
    }

    /// The administrator.
    pub fn get_admin(&self) -> (r: Result<Address, BatchTransferError>)
        ensures
            match self.admin {
                Some(admin) => r == Ok::<Address, BatchTransferError>(admin),
                None => r == Err::<Address, BatchTransferError>(
                    BatchTransferError::NotInitialized,
                ),
            },
    {
        match self.admin {
            Some(admin) => Ok(admin),
            None => Err(BatchTransferError::NotInitialized),
        }
    }

    /// Hands the administration over to `new_admin`. Only the administrator
    /// can do so.
    pub fn set_admin(&mut self, current_admin: Address, new_admin: Address) -> (r: Result<
        (),
        BatchTransferError,
    >)
        ensures
            match r {
                Ok(_) => {
                    &&& old(self).admin == Some(current_admin)
                    &&& *final(self) == (BatchTransferContract {
                        admin: Some(new_admin),
                        ..*old(self)
                    })
                },
                Err(e) => {
                    &&& *final(self) == *old(self)
                    &&& old(self).admin is None ==> e == BatchTransferError::NotInitialized
                    &&& old(self).admin is Some ==> e == BatchTransferError::Unauthorized
                        && old(self).admin != Some(current_admin)
                },
            },
    {
        match self.require_admin(&current_admin) {
            Err(e) => {
                return Err(e);
            },
            Ok(_) => {},
        }
        self.admin = Some(new_admin);
        Ok(())
    }

    /// The number of batches processed.
    pub fn get_total_batches(&self) -> (n: u64)
        ensures
            n == self.total_batches,
    {
        self.total_batches
    }

    /// The number of requests processed, carried out or not.
    pub fn get_total_transfers_processed(&self) -> (n: u64)
        ensures
            n == self.total_transfers_processed,
    {
        self.total_transfers_processed
    }

    /// The volume transferred over all batches, held at the bounds of `i128`.
    pub fn get_total_volume_transferred(&self) -> (v: i128)
        ensures
            v == self.total_volume_transferred,
    {
        self.total_volume_transferred
    }

    /// Checks what is asked of a call before any item is touched: that the
    /// contract has an administrator, that `caller` is the administrator,
    /// and that the batch holds at least one item and no more than
    /// `MAX_BATCH_SIZE`.
    pub fn check_preconditions(&self, caller: &Address, count: usize) -> (r: Result<(), BatchTransferError>)
        ensures
            r == match batch_error(self.admin, *caller, count as int) {
                Some(e) => Err::<(), BatchTransferError>(e),
                None => Ok::<(), BatchTransferError>(()),
            },
    {
        match self.require_admin(caller) {
            Err(e) => {
                return Err(e);
            },
            Ok(_) => {},
        }
        if count == 0 {
            return Err(BatchTransferError::EmptyBatch);
        }
        if count > MAX_BATCH_SIZE as usize {
            return Err(BatchTransferError::BatchTooLarge);
        }
        Ok(())
    }

    /// Checks that `caller` is the administrator.
    fn require_admin(&self, caller: &Address) -> (r: Result<(), BatchTransferError>)
        ensures
            match self.admin {
                None => r == Err::<(), BatchTransferError>(BatchTransferError::NotInitialized),
                Some(admin) => if admin == *caller {
                    r == Ok::<(), BatchTransferError>(())
                } else {
                    r == Err::<(), BatchTransferError>(BatchTransferError::Unauthorized)
                },
            },
    {
        match self.admin {
            None => Err(BatchTransferError::NotInitialized),
            Some(admin) => {
                if *caller != admin {
                    Err(BatchTransferError::Unauthorized)
                } else {
                    Ok(())
                }
            },
        }
    }
}

/// Two batches in a row: the batch ids go up by one each, the number of
/// requests processed grows by the sizes of both, the volume by the totals of
/// both, and the trail holds the events of the first batch before those of
/// the second.
pub proof fn lemma_batches_accumulate(
    start: BatchTransferContract,
    middle: BatchTransferContract,
    end: BatchTransferContract,
    first: Seq<TransferRequest>,
    first_balance: int,
    first_result: BatchTransferResult,
    second: Seq<TransferRequest>,
    second_balance: int,
    second_result: BatchTransferResult,
)
    requires
        BatchTransferContract::committed(start, middle, first_balance, first, first_result),
        BatchTransferContract::committed(middle, end, second_balance, second, second_result),
    ensures
        middle.total_batches == start.total_batches + 1,
        end.total_batches == start.total_batches + 2,
        end.total_transfers_processed == start.total_transfers_processed + first.len()
            + second.len(),
        end.total_volume_transferred == saturating_sum(
            second_result.total_transferred as int,
            saturating_sum(
                first_result.total_transferred as int,
                start.total_volume_transferred as int,
            ),
        ),
        end.events@ == start.events@ + batch_events(middle.total_batches, first_result)
            + batch_events(end.total_batches, second_result),
{
    assert(end.events@ =~= start.events@ + batch_events(middle.total_batches, first_result)
        + batch_events(end.total_batches, second_result));
}

} // verus!
