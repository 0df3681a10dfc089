//! Batch currency conversion.
//!
//! A batch is validated item by item, then executed in input order against
//! the balances that were read when the batch was entered. A request that is
//! refused is recorded and counted, and the next one is processed all the
//! same. Settlement itself is left to the ledger: a conversion that is
//! carried out yields the least amount that its request asked for.

use vstd::prelude::*;
use crate::address::Address;
use crate::ledger_error::{contract_error, from_contract_error};
use crate::tally::{
    accumulate, count_true, lemma_count_true_all, saturating_sum, saturating_total,
    AlreadyInitialized, ValidationOutcome,
};
use crate::batch_conversion::balances::{balance_of, entry_balance};
use crate::batch_conversion::types::{
    AssetBalance, BatchConversionResult, ConversionEvent, ConversionEvents, ConversionRequest,
    ConversionResult, MAX_BATCH_SIZE,
};
use crate::batch_conversion::validation::{
    validate_address, validate_amount, validate_asset_pair, validate_min_output,
};

pub mod balances;
pub mod types;
pub mod validation;

verus! {

/// Item code: the user's address is invalid.
pub const INVALID_USER: u32 = 0;

/// Item code: the address of the asset given is invalid.
pub const INVALID_FROM_ASSET: u32 = 1;

/// Item code: the address of the asset received is invalid.
pub const INVALID_TO_ASSET: u32 = 2;

/// Item code: the amount given is not positive.
pub const INVALID_AMOUNT_IN: u32 = 3;

/// Item code: the least amount expected is not positive.
pub const INVALID_MIN_AMOUNT_OUT: u32 = 4;

/// Item code: both sides of the conversion are the same asset.
pub const SAME_ASSET: u32 = 5;

/// Item code: the user owns less of the asset than the request gives.
pub const INSUFFICIENT_BALANCE: u32 = 6;

/// The errors that void a whole call.
#[derive(Copy, Clone, Debug, Eq, PartialEq, Structural)]
pub enum BatchConversionError {
    /// Contract not initialized
    NotInitialized,
    /// Caller is not authorized
    Unauthorized,
    /// Invalid batch data
    InvalidBatch,
    /// Batch is empty
    EmptyBatch,
    /// Batch exceeds maximum size
    BatchTooLarge,
    /// Invalid asset address
    InvalidAsset,
    /// Insufficient balance
    InsufficientBalance,
    /// Slippage tolerance exceeded
    SlippageExceeded,
}

impl BatchConversionError {
    /// The number under which the ledger reports this error.
    pub open spec fn spec_code(self) -> u32 {
        match self {
            BatchConversionError::NotInitialized => 1,
            BatchConversionError::Unauthorized => 2,
            BatchConversionError::InvalidBatch => 3,
            BatchConversionError::EmptyBatch => 4,
            BatchConversionError::BatchTooLarge => 5,
            BatchConversionError::InvalidAsset => 6,
            BatchConversionError::InsufficientBalance => 7,
            BatchConversionError::SlippageExceeded => 8,
        }
    }

    /// The number under which the ledger reports this error.
    pub fn code(self) -> (c: u32)
        ensures
            c == self.spec_code(),
    {
        match self {
            BatchConversionError::NotInitialized => 1,
            BatchConversionError::Unauthorized => 2,
            BatchConversionError::InvalidBatch => 3,
            BatchConversionError::EmptyBatch => 4,
            BatchConversionError::BatchTooLarge => 5,
            BatchConversionError::InvalidAsset => 6,
            BatchConversionError::InsufficientBalance => 7,
            BatchConversionError::SlippageExceeded => 8,
        }
    }
}

impl From<BatchConversionError> for soroban_sdk::Error {
    /// The ledger's error value for `e`.
    fn from(e: BatchConversionError) -> (error: Self) {
        from_contract_error(e.code())
    }
}

impl vstd::std_specs::convert::FromSpecImpl<BatchConversionError> for soroban_sdk::Error {
    open spec fn obeys_from_spec() -> bool {
        true
    }

    open spec fn from_spec(e: BatchConversionError) -> Self {
        contract_error(e.spec_code())
    }
}

/// What validation says of a request by its own fields: the first check that
/// fails gives the code.
pub open spec fn validation_outcome(r: ConversionRequest) -> ValidationOutcome {
    if r.amount_in <= 0 {
        ValidationOutcome { valid: false, error_code: INVALID_AMOUNT_IN }
    } else if r.min_amount_out <= 0 {
        ValidationOutcome { valid: false, error_code: INVALID_MIN_AMOUNT_OUT }
    } else if r.from_asset == r.to_asset {
        ValidationOutcome { valid: false, error_code: SAME_ASSET }
    } else {
        ValidationOutcome { valid: true, error_code: 0 }
    }
}

/// What `holder` still owns of `asset` once the first `k` requests are
/// processed: the balance at entry, less what the conversions carried out
/// among them took from it.
pub open spec fn remaining(
    reqs: Seq<ConversionRequest>,
    table: Seq<AssetBalance>,
    holder: Address,
    asset: Address,
    k: int,
) -> int
    decreases k,
{
    if k <= 0 {
        balance_of(table, holder, asset)
    } else {
        let r = reqs[k - 1];
        let before = remaining(reqs, table, holder, asset, k - 1);
        if r.user == holder && r.from_asset == asset && validation_outcome(r).valid && before
            >= r.amount_in {
            before - r.amount_in
        } else {
            before
        }
    }
}

/// Whether request `i` is carried out: it is valid, and its user still owns
/// the amount it gives when its turn comes.
pub open spec fn converts(reqs: Seq<ConversionRequest>, table: Seq<AssetBalance>, i: int) -> bool {
    validation_outcome(reqs[i]).valid && remaining(
        reqs,
        table,
        reqs[i].user,
        reqs[i].from_asset,
        i,
    ) >= reqs[i].amount_in
}

/// The result recorded for request `i`.
pub open spec fn outcome(
    reqs: Seq<ConversionRequest>,
    table: Seq<AssetBalance>,
    i: int,
) -> ConversionResult {
    let r = reqs[i];
    if !validation_outcome(r).valid {
        ConversionResult::Failure(
            r.user,
            r.from_asset,
            r.to_asset,
            r.amount_in,
            validation_outcome(r).error_code,
        )
    } else if converts(reqs, table, i) {
        ConversionResult::Success(r.user, r.from_asset, r.to_asset, r.amount_in, r.min_amount_out)
    } else {
        ConversionResult::Failure(
            r.user,
            r.from_asset,
            r.to_asset,
            r.amount_in,
            INSUFFICIENT_BALANCE,
        )
    }
}

/// The results of a batch: one per request, in the order of the requests.
pub open spec fn batch_results(
    reqs: Seq<ConversionRequest>,
    table: Seq<AssetBalance>,
) -> Seq<ConversionResult> {
    Seq::new(reqs.len(), |i: int| outcome(reqs, table, i))
}

/// For each request, whether it is carried out.
pub open spec fn success_flags(reqs: Seq<ConversionRequest>, table: Seq<AssetBalance>) -> Seq<
    bool,
> {
    Seq::new(reqs.len(), |i: int| converts(reqs, table, i))
}

/// For each request, the amount that it adds to the batch's total: what it
/// gives where it is carried out, and nothing where it is not.
pub open spec fn converted_amounts(
    reqs: Seq<ConversionRequest>,
    table: Seq<AssetBalance>,
) -> Seq<int> {
    Seq::new(
        reqs.len(),
        |i: int|
            if converts(reqs, table, i) {
                reqs[i].amount_in as int
            } else {
                0int
            },
    )
}

/// The event that reports one result.
pub open spec fn item_event(batch_id: u64, result: ConversionResult) -> ConversionEvent {
    match result {
        ConversionResult::Success(user, from_asset, to_asset, amount_in, amount_out) => {
            ConversionEvent::ConversionSuccess {
                batch_id,
                user,
                from_asset,
                to_asset,
                amount_in,
                amount_out,
            }
        },
        ConversionResult::Failure(user, from_asset, to_asset, amount_in, error_code) => {
            ConversionEvent::ConversionFailure {
                batch_id,
                user,
                from_asset,
                to_asset,
                amount_in,
                error_code,
            }
        },
    }
}

/// The events of the first `k` results of a batch, in order.
pub open spec fn item_events(batch_id: u64, results: Seq<ConversionResult>, k: int) -> Seq<
    ConversionEvent,
> {
    Seq::new(k as nat, |i: int| item_event(batch_id, results[i]))
}

/// The events of a whole batch: its start, one event per result, its end.
pub open spec fn batch_events(batch_id: u64, result: BatchConversionResult) -> Seq<
    ConversionEvent,
> {
    seq![ConversionEvent::BatchStarted { batch_id, request_count: result.total_requests }]
        + item_events(batch_id, result.results@, result.results@.len() as int)
        + seq![
        ConversionEvent::BatchCompleted {
            batch_id,
            successful: result.successful,
            failed: result.failed,
            total_converted: result.total_converted,
        },
    ]
}

/// The error that voids a call on `n` requests, if there is one.
pub open spec fn batch_error(n: int) -> Option<BatchConversionError> {
    if n == 0 {
        Some(BatchConversionError::EmptyBatch)
    } else if n > MAX_BATCH_SIZE {
        Some(BatchConversionError::BatchTooLarge)
    } else {
        None
    }
}

/// Whether a result echoes the user, the assets and the amount of a request.
pub open spec fn echoes(result: ConversionResult, r: ConversionRequest) -> bool {
    match result {
        ConversionResult::Success(user, from_asset, to_asset, amount_in, _) => {
            user == r.user && from_asset == r.from_asset && to_asset == r.to_asset && amount_in
                == r.amount_in
        },
        ConversionResult::Failure(user, from_asset, to_asset, amount_in, _) => {
            user == r.user && from_asset == r.from_asset && to_asset == r.to_asset && amount_in
                == r.amount_in
        },
    }
}

/// Validates one request by its own fields.
pub fn validate_request(request: &ConversionRequest) -> (v: ValidationOutcome)
    ensures
        v == validation_outcome(*request),
{
    if validate_address(&request.user).is_err() {
        ValidationOutcome { valid: false, error_code: INVALID_USER }
    } else if validate_address(&request.from_asset).is_err() {
        ValidationOutcome { valid: false, error_code: INVALID_FROM_ASSET }
    } else if validate_address(&request.to_asset).is_err() {
        ValidationOutcome { valid: false, error_code: INVALID_TO_ASSET }
    } else if validate_amount(request.amount_in).is_err() {
        ValidationOutcome { valid: false, error_code: INVALID_AMOUNT_IN }
    } else if validate_min_output(request.min_amount_out).is_err() {
        ValidationOutcome { valid: false, error_code: INVALID_MIN_AMOUNT_OUT }
    } else if validate_asset_pair(&request.from_asset, &request.to_asset).is_err() {
        ValidationOutcome { valid: false, error_code: SAME_ASSET }
    } else {
        ValidationOutcome { valid: true, error_code: 0 }
    }
}

/// Carries out one valid request against what its user still owns: the
/// amount received, or the code for an insufficient balance.
pub fn execute_conversion(request: &ConversionRequest, available: i128) -> (r: Result<i128, u32>)
    ensures
        available >= request.amount_in ==> r == Ok::<i128, u32>(request.min_amount_out),
        available < request.amount_in ==> r == Err::<i128, u32>(INSUFFICIENT_BALANCE),
{
    if available < request.amount_in {
        return Err(INSUFFICIENT_BALANCE);
    }
    Ok(request.min_amount_out)
}

/// What the user of request `i` still owns of the asset it gives, once the
/// requests before it are processed.
fn running_balance(
    conversions: &Vec<ConversionRequest>,
    balances: &Vec<AssetBalance>,
    results: &Vec<ConversionResult>,
    i: usize,
) -> (b: i128)
    requires
        i < conversions.len(),
        results.len() == i,
        forall|j: int| 0 <= j < i ==> results@[j] == outcome(conversions@, balances@, j),
    ensures
        b == remaining(
            conversions@,
            balances@,
            conversions@[i as int].user,
            conversions@[i as int].from_asset,
            i as int,
        ),
{
    let holder = conversions[i].user;
    let asset = conversions[i].from_asset;
    let mut current = entry_balance(balances, &holder, &asset);
    let mut j: usize = 0;
    while j < i
        invariant
            j <= i,
            i < conversions.len(),
            results.len() == i,
            forall|k: int| 0 <= k < i ==> results@[k] == outcome(conversions@, balances@, k),
            current == remaining(conversions@, balances@, holder, asset, j as int),
        decreases i - j,
    {
        let earlier = &conversions[j];
        if earlier.user == holder && earlier.from_asset == asset {
            match results[j] {
                ConversionResult::Success(_, _, _, amount_in, _) => {
                    current = current - amount_in;
                },
                ConversionResult::Failure(_, _, _, _, _) => {},
            }
        }
        j += 1;
    }
    current
}

/// The ledger state of the conversion contract: its administrator, its
/// running counters and its event trail.
pub struct BatchConversionContract {
    pub admin: Option<Address>,
    pub total_batches: u64,
    pub total_conversions_processed: u64,
    pub total_volume_converted: i128,
    pub events: Vec<ConversionEvent>,
}

impl BatchConversionContract {
    /// Whether the counters can take one more batch of any accepted size.
    pub open spec fn has_room(&self) -> bool {
        self.total_batches < u64::MAX && self.total_conversions_processed <= u64::MAX
            - MAX_BATCH_SIZE
    }

    /// Whether `post` is `pre` after a batch on `reqs` against `table` that
    /// returned `result`.
    pub open spec fn committed(
        pre: Self,
        post: Self,
        reqs: Seq<ConversionRequest>,
        table: Seq<AssetBalance>,
        result: BatchConversionResult,
    ) -> bool {
        let n = reqs.len() as int;
        let successes = count_true(success_flags(reqs, table), n);
        &&& result.total_requests == n
        &&& result.results@ == batch_results(reqs, table)
        &&& result.successful == successes
        &&& result.failed == n - successes
        &&& result.total_converted == saturating_total(converted_amounts(reqs, table), n)
        &&& post.admin == pre.admin
        &&& post.total_batches == pre.total_batches + 1
        &&& post.total_conversions_processed == pre.total_conversions_processed + n
        &&& post.total_volume_converted == saturating_sum(
            result.total_converted as int,
            pre.total_volume_converted as int,
        )
        &&& post.events@ == pre.events@ + batch_events(post.total_batches, result)
    }

    /// The state of a contract that was just deployed: no administrator, all
    /// counters at 0, no events.
    pub fn new() -> (c: Self)
        ensures
            c.admin is None,
            c.total_batches == 0,
            c.total_conversions_processed == 0,
            c.total_volume_converted == 0,
            c.events@ == Seq::<ConversionEvent>::empty(),
    {
        BatchConversionContract {
            admin: None,
            total_batches: 0,
            total_conversions_processed: 0,
            total_volume_converted: 0,
            events: Vec::new(),
        }
    }

    /// Initializes the contract with its administrator and resets the
    /// counters. A contract that has an administrator is left as it is.
    pub fn initialize(&mut self, admin: Address) -> (r: Result<(), AlreadyInitialized>)
        ensures
            old(self).admin is Some ==> r is Err && *final(self) == *old(self),
            old(self).admin is None ==> r is Ok,
            old(self).admin is None ==> final(self).admin == Some(admin),
            old(self).admin is None ==> final(self).total_batches == 0,
            old(self).admin is None ==> final(self).total_conversions_processed == 0,
            old(self).admin is None ==> final(self).total_volume_converted == 0,
            old(self).admin is None ==> final(self).events == old(self).events,
    {
        if self.admin.is_some() {
            return Err(AlreadyInitialized);
        }
        self.admin = Some(admin);
        self.total_batches = 0;
        self.total_conversions_processed = 0;
        self.total_volume_converted = 0;
        Ok(())
    }

    /// Whether the counters can take one more batch of any accepted size.
    pub fn can_accept_batch(&self) -> (b: bool)
        ensures
            b == self.has_room(),
    {
        self.total_batches < u64::MAX && self.total_conversions_processed <= u64::MAX
            - MAX_BATCH_SIZE as u64
    }

    /// Checks what is asked of a call before any item is touched: that the
    /// batch holds at least one item and no more than `MAX_BATCH_SIZE`.
    pub fn check_preconditions(count: usize) -> (r: Result<(), BatchConversionError>)
        ensures
            r == match batch_error(count as int) {
                Some(e) => Err::<(), BatchConversionError>(e),
                None => Ok::<(), BatchConversionError>(()),
            },
    {
        if count == 0 {
            return Err(BatchConversionError::EmptyBatch);
        }
        if count > MAX_BATCH_SIZE as usize {
            return Err(BatchConversionError::BatchTooLarge);
        }
        Ok(())
    }

    /// Converts currency for a batch of requests.
    ///
    /// An empty batch and one of more than `MAX_BATCH_SIZE` requests are
    /// refused, and the contract is left as it was. Otherwise every request
    /// gets a result, in input order: a failure with the code of the first
    /// check that it fails, or with the code for an insufficient balance
    /// where its user no longer owns the amount; else a success, which takes
    /// the amount from what the user owns for the rest of the batch. The
    /// counters move once, after the last request.
    pub fn batch_convert_currency(
        &mut self,
        balances: &Vec<AssetBalance>,
        conversions: &Vec<ConversionRequest>,
    ) -> (r: Result<BatchConversionResult, BatchConversionError>)
        requires
            old(self).has_room(),
        ensures
            match r {
                Ok(result) => {
                    &&& batch_error(conversions@.len() as int) is None
                    &&& Self::committed(
                        *old(self),
                        *final(self),
                        conversions@,
                        balances@,
                        result,
                    )
                    &&& result.results@.len() == result.total_requests
                    &&& result.successful + result.failed == result.total_requests
                    &&& forall|i: int|
                        0 <= i < conversions@.len() ==> echoes(
                            #[trigger] result.results@[i],
                            conversions@[i],
                        )
                },
                Err(e) => batch_error(conversions@.len() as int) == Some(e) && *final(self)
                    == *old(self),
            },
    {
        let count = conversions.len();
        match Self::check_preconditions(count) {
            Err(e) => {
                return Err(e);
            },
            Ok(_) => {},
        }
        let request_count: u32 = count as u32;
        let batch_id: u64 = self.total_batches + 1;
        let ghost pre_events = self.events@;
        let ghost reqs = conversions@;
        let ghost table = balances@;

        ConversionEvents::batch_started(&mut self.events, batch_id, request_count);

        // First pass: validate all requests
        let mut validated: Vec<ValidationOutcome> = Vec::new();
        let mut i: usize = 0;
        while i < count
            invariant
                i <= count,
                count == conversions.len(),
                reqs == conversions@,
                validated.len() == i,
                forall|j: int| 0 <= j < i ==> validated@[j] == validation_outcome(reqs[j]),
            decreases count - i,
        {
            validated.push(validate_request(&conversions[i]));
            i += 1;
        }

        // Second pass: execute conversions
        let mut results: Vec<ConversionResult> = Vec::new();
        let mut successful_count: u32 = 0;
        let mut failed_count: u32 = 0;
        let mut total_converted: i128 = 0;
        let mut i: usize = 0;
        while i < count
            invariant
                i <= count,
                0 < count <= MAX_BATCH_SIZE,
                count == conversions.len(),
                reqs == conversions@,
                table == balances@,
                validated.len() == count,
                forall|j: int| 0 <= j < count ==> validated@[j] == validation_outcome(reqs[j]),
                results.len() == i,
                forall|j: int| 0 <= j < i ==> results@[j] == outcome(reqs, table, j),
                successful_count == count_true(success_flags(reqs, table), i as int),
                failed_count == i - successful_count,
                successful_count <= i,
                total_converted == saturating_total(converted_amounts(reqs, table), i as int),
                self.events@ == pre_events + seq![
                    ConversionEvent::BatchStarted { batch_id, request_count },
                ] + item_events(batch_id, results@, i as int),
                self.admin == old(self).admin,
                self.total_batches == old(self).total_batches,
                self.total_conversions_processed == old(self).total_conversions_processed,
                self.total_volume_converted == old(self).total_volume_converted,
            decreases count - i,
        {
            let request = &conversions[i];
            let outcome_i = validated[i];
            let ghost results_before = results@;
            if !outcome_i.valid {
                results.push(
                    ConversionResult::Failure(
                        request.user,
                        request.from_asset,
                        request.to_asset,
                        request.amount_in,
                        outcome_i.error_code,
                    ),
                );
                failed_count += 1;
                ConversionEvents::conversion_failure(
                    &mut self.events,
                    batch_id,
                    &request.user,
                    &request.from_asset,
                    &request.to_asset,
                    request.amount_in,
                    outcome_i.error_code,
                );
            } else {
                let available = running_balance(conversions, balances, &results, i);
                match execute_conversion(request, available) {
                    Ok(amount_out) => {
                        results.push(
                            ConversionResult::Success(
                                request.user,
                                request.from_asset,
                                request.to_asset,
                                request.amount_in,
                                amount_out,
                            ),
                        );
                        successful_count += 1;
                        total_converted = accumulate(total_converted, request.amount_in);
                        ConversionEvents::conversion_success(
                            &mut self.events,
                            batch_id,
                            &request.user,
                            &request.from_asset,
                            &request.to_asset,
                            request.amount_in,
                            amount_out,
                        );
                    },
                    Err(error_code) => {
                        results.push(
                            ConversionResult::Failure(
                                request.user,
                                request.from_asset,
                                request.to_asset,
                                request.amount_in,
                                error_code,
                            ),
                        );
                        failed_count += 1;
                        ConversionEvents::conversion_failure(
                            &mut self.events,
                            batch_id,
                            &request.user,
                            &request.from_asset,
                            &request.to_asset,
                            request.amount_in,
                            error_code,
                        );
                    },
                }
            }
            proof {
                assert(results@[i as int] == outcome(reqs, table, i as int));
                assert(item_events(batch_id, results@, i + 1) =~= item_events(
                    batch_id,
                    results_before,
                    i as int,
                ).push(item_event(batch_id, results@[i as int])));
            }
            i += 1;
        }

        // Update the counters, once for the whole batch
        self.total_batches = batch_id;
        self.total_conversions_processed = self.total_conversions_processed + count as u64;
        self.total_volume_converted = accumulate(total_converted, self.total_volume_converted);

        ConversionEvents::batch_completed(
            &mut self.events,
            batch_id,
            successful_count,
            failed_count,
            total_converted,
        );

        let result = BatchConversionResult {
            total_requests: request_count,
            successful: successful_count,
            failed: failed_count,
            total_converted,
            results,
        };
        proof {
            assert(result.results@ =~= batch_results(reqs, table));
            assert(self.events@ =~= pre_events + batch_events(batch_id, result));
        }
        Ok(result)
    }

    /// The number of batches processed.
    pub fn get_total_batches(&self) -> (n: u64)
        ensures
            n == self.total_batches,
    {
        self.total_batches
    }

    /// The number of requests processed, carried out or not.
    pub fn get_total_conversions_processed(&self) -> (n: u64)
        ensures
            n == self.total_conversions_processed,
    {
        self.total_conversions_processed
    }

    /// The volume converted over all batches, held at the bounds of `i128`.
    pub fn get_total_volume_converted(&self) -> (v: i128)
        ensures
            v == self.total_volume_converted,
    {
        self.total_volume_converted
    }
}

/// Two batches in a row: the batch ids go up by one each, the number of
/// requests processed grows by the sizes of both, the volume by the totals of
/// both, and the trail holds the events of the first batch before those of
/// the second.
pub proof fn lemma_batches_accumulate(
    start: BatchConversionContract,
    middle: BatchConversionContract,
    end: BatchConversionContract,
    first: Seq<ConversionRequest>,
    first_table: Seq<AssetBalance>,
    first_result: BatchConversionResult,
    second: Seq<ConversionRequest>,
    second_table: Seq<AssetBalance>,
    second_result: BatchConversionResult,
)
    requires
        BatchConversionContract::committed(start, middle, first, first_table, first_result),
        BatchConversionContract::committed(middle, end, second, second_table, second_result),
    ensures
        middle.total_batches == start.total_batches + 1,
        end.total_batches == start.total_batches + 2,
        end.total_conversions_processed == start.total_conversions_processed + first.len()
            + second.len(),
        end.total_volume_converted == saturating_sum(
            second_result.total_converted as int,
            saturating_sum(
                first_result.total_converted as int,
                start.total_volume_converted as int,
            ),
        ),
        end.events@ == start.events@ + batch_events(middle.total_batches, first_result)
            + batch_events(end.total_batches, second_result),
{
    assert(end.events@ =~= start.events@ + batch_events(middle.total_batches, first_result)
        + batch_events(end.total_batches, second_result));
}

/// A batch in which every request is valid and covered by what its user
/// owns succeeds in full: no request fails, and the total is that of all the
/// amounts given.
pub proof fn lemma_all_converted(reqs: Seq<ConversionRequest>, table: Seq<AssetBalance>)
    requires
        forall|i: int| 0 <= i < reqs.len() ==> #[trigger] converts(reqs, table, i),
    ensures
        count_true(success_flags(reqs, table), reqs.len() as int) == reqs.len(),
        forall|i: int|
            0 <= i < reqs.len() ==> #[trigger] batch_results(reqs, table)[i]
                == ConversionResult::Success(
                reqs[i].user,
                reqs[i].from_asset,
                reqs[i].to_asset,
                reqs[i].amount_in,
                reqs[i].min_amount_out,
            ),
{
    lemma_count_true_all(success_flags(reqs, table), reqs.len() as int);
    assert forall|i: int| 0 <= i < reqs.len() implies #[trigger] batch_results(reqs, table)[i]
        == ConversionResult::Success(
        reqs[i].user,
        reqs[i].from_asset,
        reqs[i].to_asset,
        reqs[i].amount_in,
        reqs[i].min_amount_out,
    ) by {
        assert(converts(reqs, table, i));
    }
}

/// No conversion overdraws: what a holder owns of an asset never falls below
/// 0 in the course of a batch, unless it was below at entry, and never
/// rises.
pub proof fn lemma_balance_never_overdrawn(
    reqs: Seq<ConversionRequest>,
    table: Seq<AssetBalance>,
    holder: Address,
    asset: Address,
    k: int,
)
    requires
        0 <= k <= reqs.len(),
    ensures
        remaining(reqs, table, holder, asset, k) <= balance_of(table, holder, asset),
        balance_of(table, holder, asset) >= 0 ==> remaining(reqs, table, holder, asset, k) >= 0,
    decreases k,
{
    if k > 0 {
        lemma_balance_never_overdrawn(reqs, table, holder, asset, k - 1);
    }
}

} // verus!
