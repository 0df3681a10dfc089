//! Batch budget recommendations.
//!
//! The administrator submits a batch of user profiles. The decision engine
//! is asked once per profile; a profile that it refuses is recorded with its
//! code, and the profiles after it are processed all the same. The results
//! of each batch are kept under its id. A recommendation can also be
//! simulated for one profile, which changes nothing.

use vstd::prelude::*;
use crate::address::Address;
use crate::ledger_error::{contract_error, from_contract_error};
use crate::tally::{accumulate, count_true, saturating_total, AlreadyInitialized};
use crate::budget_recommendations::engine::{recommend, recommend_spec};
use crate::budget_recommendations::types::{
    BatchRecommendationMetrics, BatchRecommendationResult, BudgetRecommendation,
    RecommendationEvent, RecommendationEvents, RecommendationNote, RecommendationResult,
    StoredBatch, UserProfile, MAX_BATCH_SIZE,
};

pub mod engine;
pub mod types;

verus! {

/// The errors that void a whole call.
#[derive(Copy, Clone, Debug, Eq, PartialEq, Structural)]
pub enum BudgetRecommendationError {
    /// Contract not initialized
    NotInitialized,
    /// Caller is not authorized
    Unauthorized,
    /// Invalid batch data
    InvalidBatch,
    /// Batch is empty
    EmptyBatch,
    /// Batch exceeds maximum size
    BatchTooLarge,
}

impl BudgetRecommendationError {
    /// The number under which the ledger reports this error.
    pub open spec fn spec_code(self) -> u32 {
        match self {
            BudgetRecommendationError::NotInitialized => 1,
            BudgetRecommendationError::Unauthorized => 2,
            BudgetRecommendationError::InvalidBatch => 3,
            BudgetRecommendationError::EmptyBatch => 4,
            BudgetRecommendationError::BatchTooLarge => 5,
        }
    }

    /// The number under which the ledger reports this error.
    pub fn code(self) -> (c: u32)
        ensures
            c == self.spec_code(),
    {
        match self {
            BudgetRecommendationError::NotInitialized => 1,
            BudgetRecommendationError::Unauthorized => 2,
            BudgetRecommendationError::InvalidBatch => 3,
            BudgetRecommendationError::EmptyBatch => 4,
            BudgetRecommendationError::BatchTooLarge => 5,
        }
    }
}

impl From<BudgetRecommendationError> for soroban_sdk::Error {
    /// The ledger's error value for `e`.
    fn from(e: BudgetRecommendationError) -> (error: Self) {
        from_contract_error(e.code())
    }
}

impl vstd::std_specs::convert::FromSpecImpl<BudgetRecommendationError> for soroban_sdk::Error {
    open spec fn obeys_from_spec() -> bool {
        true
    }

    open spec fn from_spec(e: BudgetRecommendationError) -> Self {
        contract_error(e.spec_code())
    }
}

/// The result recorded for a profile.
pub open spec fn outcome(p: UserProfile) -> RecommendationResult {
    match recommend_spec(p) {
        Ok(recommendation) => RecommendationResult::Success(recommendation),
        Err(error_code) => RecommendationResult::Failure(p.user_id, error_code),
    }
}

/// The results of a batch: one per profile, in the order of the profiles.
pub open spec fn batch_results(profiles: Seq<UserProfile>) -> Seq<RecommendationResult> {
    Seq::new(profiles.len(), |i: int| outcome(profiles[i]))
}

/// For each profile, whether it gets a recommendation.
pub open spec fn success_flags(profiles: Seq<UserProfile>) -> Seq<bool> {
    Seq::new(profiles.len(), |i: int| recommend_spec(profiles[i]) is Ok)
}

/// For each profile, the budget recommended; nothing where the profile is
/// refused.
pub open spec fn budget_amounts(profiles: Seq<UserProfile>) -> Seq<int> {
    Seq::new(
        profiles.len(),
        |i: int|
            match recommend_spec(profiles[i]) {
                Ok(recommendation) => recommendation.recommended_budget as int,
                Err(_) => 0int,
            },
    )
}

/// For each profile, the savings recommended; nothing where the profile is
/// refused.
pub open spec fn savings_amounts(profiles: Seq<UserProfile>) -> Seq<int> {
    Seq::new(
        profiles.len(),
        |i: int|
            match recommend_spec(profiles[i]) {
                Ok(recommendation) => recommendation.recommended_savings as int,
                Err(_) => 0int,
            },
    )
}

/// The events that report one result: a recommendation, followed by a notice
/// on overspending where the expenses exceed the income; or a refusal.
pub open spec fn result_events(batch_id: u64, result: RecommendationResult) -> Seq<
    RecommendationEvent,
> {
    match result {
        RecommendationResult::Success(recommendation) => {
            let generated = RecommendationEvent::RecommendationGenerated {
                batch_id,
                user_id: recommendation.user_id,
                recommended_budget: recommendation.recommended_budget,
                recommended_savings: recommendation.recommended_savings,
                confidence_score: recommendation.confidence_score,
            };
            if recommendation.notes == RecommendationNote::ExpensesExceedIncome {
                seq![
                    generated,
                    RecommendationEvent::OverspendingFlagged { batch_id, user_id: recommendation.user_id },
                ]
            } else {
                seq![generated]
            }
        },
        RecommendationResult::Failure(user_id, error_code) => seq![
            RecommendationEvent::RecommendationFailed { batch_id, user_id, error_code },
        ],
    }
}

/// The events of the first `k` profiles of a batch, in order.
pub open spec fn item_events(batch_id: u64, profiles: Seq<UserProfile>, k: int) -> Seq<
    RecommendationEvent,
>
    decreases k,
{
    if k <= 0 {
        Seq::empty()
    } else {
        item_events(batch_id, profiles, k - 1) + result_events(batch_id, outcome(profiles[k - 1]))
    }
}

/// The error that voids a call by `caller` on `n` profiles, if there is one.
/// The administrator is checked before the size of the batch.
pub open spec fn batch_error(admin: Option<Address>, caller: Address, n: int) -> Option<
    BudgetRecommendationError,
> {
    if admin is None {
        Some(BudgetRecommendationError::NotInitialized)
    } else if admin != Some(caller) {
        Some(BudgetRecommendationError::Unauthorized)
    } else if n == 0 {
        Some(BudgetRecommendationError::EmptyBatch)
    } else if n > MAX_BATCH_SIZE {
        Some(BudgetRecommendationError::BatchTooLarge)
    } else {
        None
    }
}

/// Whether a result is for the user of a profile.
pub open spec fn echoes(result: RecommendationResult, p: UserProfile) -> bool {
    match result {
        RecommendationResult::Success(recommendation) => recommendation.user_id == p.user_id,
        RecommendationResult::Failure(user_id, _) => user_id == p.user_id,
    }
}

/// The place of the first batch kept under `batch_id` at or after `from`;
/// the number of batches where there is none.
pub open spec fn batch_position(batches: Seq<StoredBatch>, batch_id: u64, from: int) -> int
    decreases batches.len() - from,
{
    if from < 0 || from >= batches.len() {
        batches.len() as int
    } else if batches[from].batch_id == batch_id {
        from
    } else {
        batch_position(batches, batch_id, from + 1)
    }
}

/// Copies a list of results.
fn copy_results(results: &Vec<RecommendationResult>) -> (copy: Vec<RecommendationResult>)
    ensures
        copy@ == results@,
{
    let mut copy: Vec<RecommendationResult> = Vec::new();
    let mut i: usize = 0;
    while i < results.len()
        invariant
            i <= results.len(),
            copy@ == results@.take(i as int),
        decreases results.len() - i,
    {
        copy.push(results[i]);
        proof {
            assert(copy@ =~= results@.take(i + 1));
        }
        i += 1;
    }
    proof {
        assert(results@.take(results@.len() as int) =~= results@);
    }
    copy
}

/// The ledger state of the recommendation contract: its administrator, its
/// counters, the results of each batch, and its event trail.
pub struct BudgetRecommendationsContract {
    pub admin: Option<Address>,
    pub last_batch_id: u64,
    pub total_users_processed: u64,
    pub total_recommendations_generated: u64,
    pub batches: Vec<StoredBatch>,
    pub events: Vec<RecommendationEvent>,
}

impl BudgetRecommendationsContract {
    /// Whether the counters can take one more batch of any accepted size.
    pub open spec fn has_room(&self) -> bool {
        &&& self.last_batch_id < u64::MAX
        &&& self.total_users_processed <= u64::MAX - MAX_BATCH_SIZE
        &&& self.total_recommendations_generated <= u64::MAX - MAX_BATCH_SIZE
    }

    /// Whether `post` is `pre` after a batch on `profiles` that returned
    /// `result`.
    pub open spec fn committed(
        pre: Self,
        post: Self,
        profiles: Seq<UserProfile>,
        result: BatchRecommendationResult,
    ) -> bool {
        let n = profiles.len() as int;
        let successes = count_true(success_flags(profiles), n);
        let kept = pre.batches@.len() as int;
        &&& result.batch_id == pre.last_batch_id + 1
        &&& result.total_users == n
        &&& result.successful == successes
        &&& result.failed == n - successes
        &&& result.results@ == batch_results(profiles)
        &&& result.metrics == (BatchRecommendationMetrics {
            user_count: result.total_users,
            successful_recommendations: result.successful,
            failed_recommendations: result.failed,
            total_recommended_budget: saturating_total(budget_amounts(profiles), n) as i128,
            total_recommended_savings: saturating_total(savings_amounts(profiles), n) as i128,
        })
        &&& post.admin == pre.admin
        &&& post.last_batch_id == pre.last_batch_id + 1
        &&& post.total_users_processed == pre.total_users_processed + n
        &&& post.total_recommendations_generated == pre.total_recommendations_generated
            + successes
        &&& post.batches@.len() == kept + 1
        &&& post.batches@.take(kept) == pre.batches@
        &&& post.batches@[kept].batch_id == result.batch_id
        &&& post.batches@[kept].results@ == result.results@
        &&& post.events@ == pre.events@ + seq![
            RecommendationEvent::BatchStarted {
                batch_id: result.batch_id,
                user_count: result.total_users,
            },
        ] + item_events(result.batch_id, profiles, n) + seq![
            RecommendationEvent::BatchCompleted {
                batch_id: result.batch_id,
                successful: result.successful,
                failed: result.failed,
                total_recommended_budget: result.metrics.total_recommended_budget,
            },
        ]
    }

    /// The state of a contract that was just deployed: no administrator, all
    /// counters at 0, no batches, no events.
    pub fn new() -> (c: Self)
        ensures
            c.admin is None,
            c.last_batch_id == 0,
            c.total_users_processed == 0,
            c.total_recommendations_generated == 0,
            c.batches@ == Seq::<StoredBatch>::empty(),
            c.events@ == Seq::<RecommendationEvent>::empty(),
            c.has_room(),
    {
        BudgetRecommendationsContract {
            admin: None,
            last_batch_id: 0,
            total_users_processed: 0,
            total_recommendations_generated: 0,
            batches: Vec::new(),
            events: Vec::new(),
        }
    }

    /// Initializes the contract with its administrator and resets the
    /// counters. A contract that has an administrator is left as it is.
    pub fn initialize(&mut self, admin: Address) -> (r: Result<(), AlreadyInitialized>)
        ensures
            old(self).admin is Some ==> r is Err && *final(self) == *old(self),
            old(self).admin is None ==> r is Ok,
            old(self).admin is None ==> final(self).admin == Some(admin),
            old(self).admin is None ==> final(self).last_batch_id == 0,
            old(self).admin is None ==> final(self).total_users_processed == 0,
            old(self).admin is None ==> final(self).total_recommendations_generated == 0,
            old(self).admin is None ==> final(self).batches == old(self).batches,
            old(self).admin is None ==> final(self).events == old(self).events,
    {
        if self.admin.is_some() {
            return Err(AlreadyInitialized);
        }
        self.admin = Some(admin);
        self.last_batch_id = 0;
        self.total_users_processed = 0;
        self.total_recommendations_generated = 0;
        Ok(())
    }

    /// Whether the counters can take one more batch of any accepted size.
    pub fn can_accept_batch(&self) -> (b: bool)
        ensures
            b == self.has_room(),
    {
        let limit: u64 = u64::MAX - MAX_BATCH_SIZE as u64;
        self.last_batch_id < u64::MAX && self.total_users_processed <= limit
            && self.total_recommendations_generated <= limit
    }

    /// Generates recommendations for a batch of profiles.
    ///
    /// The call is refused, and the contract left as it was, where the
    /// contract has no administrator, `caller` is not the administrator, the
    /// batch is empty, or it holds more than `MAX_BATCH_SIZE` profiles.
    /// Otherwise every profile gets a result, in input order: what the
    /// decision engine recommends, or the user's id and the code of the
    /// check that the profile fails. The results are kept under the batch's
    /// id, and the counters move once, after the last profile.
    pub fn generate_batch_recommendations(
        &mut self,
        caller: Address,
        profiles: &Vec<UserProfile>,
    ) -> (r: Result<BatchRecommendationResult, BudgetRecommendationError>)
        requires
            old(self).has_room(),
        ensures
            match r {
                Ok(result) => {
                    &&& batch_error(old(self).admin, caller, profiles@.len() as int) is None
                    &&& Self::committed(*old(self), *final(self), profiles@, result)
                    &&& result.results@.len() == result.total_users
                    &&& result.successful + result.failed == result.total_users
                    &&& forall|i: int|
                        0 <= i < profiles@.len() ==> echoes(
                            #[trigger] result.results@[i],
                            profiles@[i],
                        )
                },
                Err(e) => batch_error(old(self).admin, caller, profiles@.len() as int) == Some(e)
                    && *final(self) == *old(self),
            },
    {
        let count = profiles.len();
        match self.check_preconditions(&caller, count) {
            Err(e) => {
                return Err(e);
            },
            Ok(_) => {},
        }
        let user_count: u32 = count as u32;
        let batch_id: u64 = self.last_batch_id + 1;
        let ghost pre_events = self.events@;
        let ghost pre_batches = self.batches@;
        let ghost all = profiles@;

        RecommendationEvents::batch_started(&mut self.events, batch_id, user_count);

        let mut results: Vec<RecommendationResult> = Vec::new();
        let mut successful_count: u32 = 0;
        let mut failed_count: u32 = 0;
        let mut total_recommended_budget: i128 = 0;
        let mut total_recommended_savings: i128 = 0;

        let mut i: usize = 0;
        while i < count
            invariant
                i <= count,
                0 < count <= MAX_BATCH_SIZE,
                count == profiles.len(),
                all == profiles@,
                results.len() == i,
                forall|j: int| 0 <= j < i ==> results@[j] == outcome(all[j]),
                successful_count == count_true(success_flags(all), i as int),
                failed_count == i - successful_count,
                successful_count <= i,
                total_recommended_budget == saturating_total(budget_amounts(all), i as int),
                total_recommended_savings == saturating_total(savings_amounts(all), i as int),
                self.events@ == pre_events + seq![
                    RecommendationEvent::BatchStarted { batch_id, user_count },
                ] + item_events(batch_id, all, i as int),
                self.admin == old(self).admin,
                self.last_batch_id == old(self).last_batch_id,
                self.total_users_processed == old(self).total_users_processed,
                self.total_recommendations_generated == old(self)
                    .total_recommendations_generated,
                self.batches == old(self).batches,
            decreases count - i,
        {
            let profile = &profiles[i];
            match recommend(profile) {
                Ok(recommendation) => {
                    successful_count += 1;
                    total_recommended_budget = accumulate(
                        total_recommended_budget,
                        recommendation.recommended_budget,
                    );
                    total_recommended_savings = accumulate(
                        total_recommended_savings,
                        recommendation.recommended_savings,
                    );
                    RecommendationEvents::recommendation_generated(
                        &mut self.events,
                        batch_id,
                        &recommendation,
                    );
                    if recommendation.notes == RecommendationNote::ExpensesExceedIncome {
                        RecommendationEvents::overspending_flagged(
                            &mut self.events,
                            batch_id,
                            recommendation.user_id,
                        );
                    }
                    results.push(RecommendationResult::Success(recommendation));
                },
                Err(error_code) => {
                    failed_count += 1;
                    RecommendationEvents::recommendation_failed(
                        &mut self.events,
                        batch_id,
                        profile.user_id,
                        error_code,
                    );
                    results.push(RecommendationResult::Failure(profile.user_id, error_code));
                },
            }
            proof {
                assert(self.events@ =~= pre_events + seq![
                    RecommendationEvent::BatchStarted { batch_id, user_count },
                ] + item_events(batch_id, all, i + 1));
            }
            i += 1;
        }

        let metrics = BatchRecommendationMetrics {
            user_count,
            successful_recommendations: successful_count,
            failed_recommendations: failed_count,
            total_recommended_budget,
            total_recommended_savings,
        };

        // Keep the results under the batch's id
        self.batches.push(StoredBatch { batch_id, results: copy_results(&results) });

        // Update the counters, once for the whole batch
        self.last_batch_id = batch_id;
        self.total_users_processed = self.total_users_processed + count as u64;
        self.total_recommendations_generated = self.total_recommendations_generated
            + successful_count as u64;

        RecommendationEvents::batch_completed(
            &mut self.events,
            batch_id,
            successful_count,
            failed_count,
            total_recommended_budget,
        );

        let result = BatchRecommendationResult {
            batch_id,
            total_users: user_count,
            successful: successful_count,
            failed: failed_count,
            results,
            metrics,
        };
        proof {
            assert(result.results@ =~= batch_results(all));
            assert(self.batches@.take(pre_batches.len() as int) =~= pre_batches);
            assert(self.events@ =~= pre_events + seq![
                RecommendationEvent::BatchStarted { batch_id, user_count },
            ] + item_events(batch_id, all, count as int) + seq![
                RecommendationEvent::BatchCompleted {
                    batch_id,
                    successful: successful_count,
                    failed: failed_count,
                    total_recommended_budget,
                },
            ]);
        }
        Ok(result)
    }

    /// What the decision engine recommends for one profile, if the profile
    /// passes validation. Nothing is kept and no counter moves.
    pub fn simulate_recommendation(&self, profile: &UserProfile) -> (r: Option<
        BudgetRecommendation,
    >)
        ensures
            r == match recommend_spec(*profile) {
                Ok(recommendation) => Some(recommendation),
                Err(_) => None,
            },
    {
        match recommend(profile) {
            Ok(recommendation) => Some(recommendation),
            Err(_) => None,
        }
    }

    /// The results kept under `batch_id`, if there are any.
    pub fn get_batch_recommendations(&self, batch_id: u64) -> (r: Option<
        Vec<RecommendationResult>,
    >)
        ensures
            match r {
                Some(results) => {
                    let at = batch_position(self.batches@, batch_id, 0);
                    &&& 0 <= at < self.batches@.len()
                    &&& self.batches@[at].batch_id == batch_id
                    &&& results@ == self.batches@[at].results@
                },
                None => forall|j: int|
                    0 <= j < self.batches@.len() ==> (#[trigger] self.batches@[j]).batch_id
                        != batch_id,
            },
    {
        let mut i: usize = 0;
        while i < self.batches.len()
            invariant
                i <= self.batches.len(),
                batch_position(self.batches@, batch_id, 0) == batch_position(
                    self.batches@,
                    batch_id,
                    i as int,
                ),
                forall|j: int| 0 <= j < i ==> (#[trigger] self.batches@[j]).batch_id != batch_id,
            decreases self.batches.len() - i,
        {
            if self.batches[i].batch_id == batch_id {
                return Some(copy_results(&self.batches[i].results));
            }
            i += 1;
        }
        None
    }

    /// The administrator.
    pub fn get_admin(&self) -> (r: Result<Address, BudgetRecommendationError>)
        ensures
            match self.admin {
                Some(admin) => r == Ok::<Address, BudgetRecommendationError>(admin),
                None => r == Err::<Address, BudgetRecommendationError>(
                    BudgetRecommendationError::NotInitialized,
                ),
            },
    {
        match self.admin {
            Some(admin) => Ok(admin),
            None => Err(BudgetRecommendationError::NotInitialized),
        }
    }

    /// Hands the administration over to `new_admin`. Only the administrator
    /// can do so.
    pub fn set_admin(&mut self, current_admin: Address, new_admin: Address) -> (r: Result<
        (),
        BudgetRecommendationError,
    >)
        ensures
            match r {
                Ok(_) => {
                    &&& old(self).admin == Some(current_admin)
                    &&& *final(self) == (BudgetRecommendationsContract {
                        admin: Some(new_admin),
                        ..*old(self)
                    })
                },
                Err(e) => {
                    &&& *final(self) == *old(self)
                    &&& old(self).admin is None ==> e == BudgetRecommendationError::NotInitialized
                    &&& old(self).admin is Some ==> e == BudgetRecommendationError::Unauthorized
                        && old(self).admin != Some(current_admin)
                },
            },
    {
        match self.require_admin(&current_admin) {
            Err(e) => {
                return Err(e);
            },
            Ok(_) => {},
        }
        self.admin = Some(new_admin);
        Ok(())
    }

    /// The id of the last batch.
    pub fn get_last_batch_id(&self) -> (n: u64)
        ensures
            n == self.last_batch_id,
    {
        self.last_batch_id
    }

    /// The number of profiles processed, refused or not.
    pub fn get_total_users_processed(&self) -> (n: u64)
        ensures
            n == self.total_users_processed,
    {
        self.total_users_processed
    }

    /// The number of recommendations generated.
    pub fn get_total_recommendations_generated(&self) -> (n: u64)
        ensures
            n == self.total_recommendations_generated,
    {
        self.total_recommendations_generated
    }

    /// Checks what is asked of a call before any item is touched: that the
    /// contract has an administrator, that `caller` is the administrator,
    /// and that the batch holds at least one item and no more than
    /// `MAX_BATCH_SIZE`.
    pub fn check_preconditions(&self, caller: &Address, count: usize) -> (r: Result<(), BudgetRecommendationError>)
        ensures
            r == match batch_error(self.admin, *caller, count as int) {
                Some(e) => Err::<(), BudgetRecommendationError>(e),
                None => Ok::<(), BudgetRecommendationError>(()),
            },
    {
        match self.require_admin(caller) {
            Err(e) => {
                return Err(e);
            },
            Ok(_) => {},
        }
        if count == 0 {
            return Err(BudgetRecommendationError::EmptyBatch);
        }
        if count > MAX_BATCH_SIZE as usize {
            return Err(BudgetRecommendationError::BatchTooLarge);
        }
        Ok(())
    }

    /// Checks that `caller` is the administrator.
    fn require_admin(&self, caller: &Address) -> (r: Result<(), BudgetRecommendationError>)
        ensures
            match self.admin {
                None => r == Err::<(), BudgetRecommendationError>(
                    BudgetRecommendationError::NotInitialized,
                ),
                Some(admin) => if admin == *caller {
                    r == Ok::<(), BudgetRecommendationError>(())
                } else {
                    r == Err::<(), BudgetRecommendationError>(
                        BudgetRecommendationError::Unauthorized,
                    )
                },
            },
    {
        match self.admin {
            None => Err(BudgetRecommendationError::NotInitialized),
            Some(admin) => {
                if *caller != admin {
                    Err(BudgetRecommendationError::Unauthorized)
                } else {
                    Ok(())
                }
            },
        }
    }
}

/// Two batches in a row: the batch ids go up by one each, the number of
/// users processed grows by the sizes of both batches, and the number of
/// recommendations by the successes of both.
pub proof fn lemma_batches_accumulate(
    start: BudgetRecommendationsContract,
    middle: BudgetRecommendationsContract,
    end: BudgetRecommendationsContract,
    first: Seq<UserProfile>,
    first_result: BatchRecommendationResult,
    second: Seq<UserProfile>,
    second_result: BatchRecommendationResult,
)
    requires
        BudgetRecommendationsContract::committed(start, middle, first, first_result),
        BudgetRecommendationsContract::committed(middle, end, second, second_result),
    ensures
        first_result.batch_id == start.last_batch_id + 1,
        second_result.batch_id == start.last_batch_id + 2,
        end.last_batch_id == start.last_batch_id + 2,
        end.total_users_processed == start.total_users_processed + first.len() + second.len(),
        end.total_recommendations_generated == start.total_recommendations_generated
            + first_result.successful + second_result.successful,
{
}

} // verus!
