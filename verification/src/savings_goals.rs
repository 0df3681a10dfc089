//! Batch creation of savings goals.
//!
//! The administrator submits a batch of goal requests. Each request is
//! validated on its own; a valid one creates a goal under the next goal id,
//! an invalid one is recorded with the code of the check it failed. The
//! counters move once, after the last request.

use vstd::prelude::*;
use crate::address::Address;
use crate::ledger_error::{contract_error, from_contract_error};
use crate::tally::{
    accumulate, count_true, lemma_count_true_bounds, lemma_saturating_total_nonnegative,
    saturating_total, AlreadyInitialized,
};
use crate::savings_goals::types::{
    BatchGoalMetrics, BatchGoalResult, GoalEvent, GoalEvents, GoalResult, SavingsGoal,
    SavingsGoalRequest, HIGH_VALUE_GOAL_AMOUNT, MAX_BATCH_SIZE,
};
use crate::savings_goals::validation::{validate_goal_request, validation_result};

pub mod types;
pub mod validation;

verus! {

/// The errors that void a whole call.
#[derive(Copy, Clone, Debug, Eq, PartialEq, Structural)]
pub enum SavingsGoalError {
    /// Contract not initialized
    NotInitialized,
    /// Caller is not authorized
    Unauthorized,
    /// Invalid batch data
    InvalidBatch,
    /// Batch is empty
    EmptyBatch,
    /// Batch exceeds maximum size
    BatchTooLarge,
}

impl SavingsGoalError {
    /// The number under which the ledger reports this error.
    pub open spec fn spec_code(self) -> u32 {
        match self {
            SavingsGoalError::NotInitialized => 1,
            SavingsGoalError::Unauthorized => 2,
            SavingsGoalError::InvalidBatch => 3,
            SavingsGoalError::EmptyBatch => 4,
            SavingsGoalError::BatchTooLarge => 5,
        }
    }

    /// The number under which the ledger reports this error.
    pub fn code(self) -> (c: u32)
        ensures
            c == self.spec_code(),
    {
        match self {
            SavingsGoalError::NotInitialized => 1,
            SavingsGoalError::Unauthorized => 2,
            SavingsGoalError::InvalidBatch => 3,
            SavingsGoalError::EmptyBatch => 4,
            SavingsGoalError::BatchTooLarge => 5,
        }
    }
}

impl From<SavingsGoalError> for soroban_sdk::Error {
    /// The ledger's error value for `e`.
    fn from(e: SavingsGoalError) -> (error: Self) {
        from_contract_error(e.code())
    }
}

impl vstd::std_specs::convert::FromSpecImpl<SavingsGoalError> for soroban_sdk::Error {
    open spec fn obeys_from_spec() -> bool {
        true
    }

    open spec fn from_spec(e: SavingsGoalError) -> Self {
        contract_error(e.spec_code())
    }
}

/// For each request, whether it creates a goal.
pub open spec fn created_flags(ledger: u32, reqs: Seq<SavingsGoalRequest>) -> Seq<bool> {
    Seq::new(reqs.len(), |i: int| validation_result(ledger, reqs[i]) is Ok)
}

/// For each request, the target that it adds to the batch's total: its own
/// where it creates a goal, nothing where it does not.
pub open spec fn target_amounts(ledger: u32, reqs: Seq<SavingsGoalRequest>) -> Seq<int> {
    Seq::new(
        reqs.len(),
        |i: int|
            if validation_result(ledger, reqs[i]) is Ok {
                reqs[i].target_amount as int
            } else {
                0int
            },
    )
}

/// For each request, the initial contribution that it adds to the batch's
/// total.
pub open spec fn contribution_amounts(ledger: u32, reqs: Seq<SavingsGoalRequest>) -> Seq<int> {
    Seq::new(
        reqs.len(),
        |i: int|
            if validation_result(ledger, reqs[i]) is Ok {
                reqs[i].initial_contribution as int
            } else {
                0int
            },
    )
}

/// The goal that a valid request creates under `goal_id` in ledger `ledger`.
pub open spec fn goal_for(request: SavingsGoalRequest, goal_id: u64, ledger: u32) -> SavingsGoal {
    SavingsGoal {
        goal_id,
        user: request.user,
        goal_name: request.goal_name,
        target_amount: request.target_amount,
        current_amount: request.initial_contribution,
        deadline: request.deadline,
        created_at: ledger as u64,
        is_active: true,
    }
}

/// The goal id that request `i` gets if it is valid: ids go up by one from
/// `last_goal_id` with every goal created.
pub open spec fn goal_id_at(
    last_goal_id: u64,
    ledger: u32,
    reqs: Seq<SavingsGoalRequest>,
    i: int,
) -> int {
    last_goal_id + count_true(created_flags(ledger, reqs), i) + 1
}

/// The result recorded for request `i`.
pub open spec fn outcome(
    last_goal_id: u64,
    ledger: u32,
    reqs: Seq<SavingsGoalRequest>,
    i: int,
) -> GoalResult {
    match validation_result(ledger, reqs[i]) {
        Ok(_) => GoalResult::Success(
            goal_for(reqs[i], goal_id_at(last_goal_id, ledger, reqs, i) as u64, ledger),
        ),
        Err(error_code) => GoalResult::Failure(reqs[i].user, error_code),
    }
}

/// The results of a batch: one per request, in the order of the requests.
pub open spec fn batch_results(
    last_goal_id: u64,
    ledger: u32,
    reqs: Seq<SavingsGoalRequest>,
) -> Seq<GoalResult> {
    Seq::new(reqs.len(), |i: int| outcome(last_goal_id, ledger, reqs, i))
}

/// The goals in the first `k` of `results`, in order.
pub open spec fn created_goals(results: Seq<GoalResult>, k: int) -> Seq<SavingsGoal>
    decreases k,
{
    if k <= 0 {
        Seq::empty()
    } else {
        match results[k - 1] {
            GoalResult::Success(goal) => created_goals(results, k - 1).push(goal),
            GoalResult::Failure(_, _) => created_goals(results, k - 1),
        }
    }
}

/// The events that report one result: a creation, followed by a high-value
/// notice where the target is at least `HIGH_VALUE_GOAL_AMOUNT`; or a
/// refusal.
pub open spec fn result_events(batch_id: u64, result: GoalResult) -> Seq<GoalEvent> {
    match result {
        GoalResult::Success(goal) => {
            let created = GoalEvent::GoalCreated {
                batch_id,
                goal_id: goal.goal_id,
                user: goal.user,
                target_amount: goal.target_amount,
            };
            if goal.target_amount >= HIGH_VALUE_GOAL_AMOUNT {
                seq![
                    created,
                    GoalEvent::HighValueGoal {
                        batch_id,
                        goal_id: goal.goal_id,
                        amount: goal.target_amount,
                    },
                ]
            } else {
                seq![created]
            }
        },
        GoalResult::Failure(user, error_code) => seq![
            GoalEvent::GoalCreationFailed { batch_id, user, error_code },
        ],
    }
}

/// The events of the first `k` of `results`, in order.
pub open spec fn item_events(batch_id: u64, results: Seq<GoalResult>, k: int) -> Seq<GoalEvent>
    decreases k,
{
    if k <= 0 {
        Seq::empty()
    } else {
        item_events(batch_id, results, k - 1) + result_events(batch_id, results[k - 1])
    }
}

/// The events of a whole batch: its start, the events of each result, its
/// end.
pub open spec fn batch_events(result: BatchGoalResult) -> Seq<GoalEvent> {
    seq![
        GoalEvent::BatchStarted {
            batch_id: result.batch_id,
            request_count: result.total_requests,
        },
    ] + item_events(result.batch_id, result.results@, result.results@.len() as int) + seq![
        GoalEvent::BatchCompleted {
            batch_id: result.batch_id,
            successful: result.successful,
            failed: result.failed,
            total_amount: result.metrics.total_target_amount,
        },
    ]
}

/// The error that voids a call by `caller` on `n` requests, if there is one.
/// The administrator is checked before the size of the batch.
pub open spec fn batch_error(admin: Option<Address>, caller: Address, n: int) -> Option<
    SavingsGoalError,
> {
    if admin is None {
        Some(SavingsGoalError::NotInitialized)
    } else if admin != Some(caller) {
        Some(SavingsGoalError::Unauthorized)
    } else if n == 0 {
        Some(SavingsGoalError::EmptyBatch)
    } else if n > MAX_BATCH_SIZE {
        Some(SavingsGoalError::BatchTooLarge)
    } else {
        None
    }
}

/// Whether a result is for the user of a request, and, where it holds a
/// goal, the goal has the name, target, deadline and contribution of the
/// request.
pub open spec fn echoes(result: GoalResult, request: SavingsGoalRequest) -> bool {
    match result {
        GoalResult::Success(goal) => {
            &&& goal.user == request.user
            &&& goal.goal_name == request.goal_name
            &&& goal.target_amount == request.target_amount
            &&& goal.current_amount == request.initial_contribution
            &&& goal.deadline == request.deadline
        },
        GoalResult::Failure(user, _) => user == request.user,
    }
}

/// The goal stored under `goal_id` at or after index `from`, if there is one.
pub open spec fn find_goal(goals: Seq<SavingsGoal>, goal_id: u64, from: int) -> Option<SavingsGoal>
    decreases goals.len() - from,
{
    if from < 0 || from >= goals.len() {
        None
    } else if goals[from].goal_id == goal_id {
        Some(goals[from])
    } else {
        find_goal(goals, goal_id, from + 1)
    }
}

/// The ids of the goals of `user` among the first `k` goals, in order.
pub open spec fn goal_ids_of(goals: Seq<SavingsGoal>, user: Address, k: int) -> Seq<u64>
    decreases k,
{
    if k <= 0 {
        Seq::empty()
    } else if goals[k - 1].user == user {
        goal_ids_of(goals, user, k - 1).push(goals[k - 1].goal_id)
    } else {
        goal_ids_of(goals, user, k - 1)
    }
}

/// The goals in the first `k` results of a batch have the ids that follow
/// `last_goal_id`, one after the other.
pub proof fn lemma_created_goals_ids(
    last_goal_id: u64,
    ledger: u32,
    reqs: Seq<SavingsGoalRequest>,
    k: int,
)
    requires
        0 <= k <= reqs.len(),
        last_goal_id + reqs.len() <= u64::MAX,
    ensures
        created_goals(batch_results(last_goal_id, ledger, reqs), k).len() == count_true(
            created_flags(ledger, reqs),
            k,
        ),
        forall|j: int|
            0 <= j < count_true(created_flags(ledger, reqs), k) ==> (#[trigger] created_goals(
                batch_results(last_goal_id, ledger, reqs),
                k,
            )[j]).goal_id == last_goal_id + j + 1,
    decreases k,
{
    if k > 0 {
        lemma_created_goals_ids(last_goal_id, ledger, reqs, k - 1);
        lemma_count_true_bounds(created_flags(ledger, reqs), k - 1);
    }
}

/// Builds the goal that a valid request creates.
fn make_goal(request: &SavingsGoalRequest, goal_id: u64, ledger: u32) -> (goal: SavingsGoal)
    ensures
        goal == goal_for(*request, goal_id, ledger),
{
    SavingsGoal {
        goal_id,
        user: request.user,
        goal_name: request.goal_name.clone(),
        target_amount: request.target_amount,
        current_amount: request.initial_contribution,
        deadline: request.deadline,
        created_at: ledger as u64,
        is_active: true,
    }
}

/// Copies a goal.
fn copy_goal(goal: &SavingsGoal) -> (copy: SavingsGoal)
    ensures
        copy == *goal,
{
    SavingsGoal {
        goal_id: goal.goal_id,
        user: goal.user,
        goal_name: goal.goal_name.clone(),
        target_amount: goal.target_amount,
        current_amount: goal.current_amount,
        deadline: goal.deadline,
        created_at: goal.created_at,
        is_active: goal.is_active,
    }
}

/// The ledger state of the savings goals contract: its administrator, its
/// counters, the goals created so far and its event trail.
pub struct SavingsGoalsContract {
    pub admin: Option<Address>,
    pub last_batch_id: u64,
    pub last_goal_id: u64,
    pub total_goals_created: u64,
    pub total_batches_processed: u64,
    pub goals: Vec<SavingsGoal>,
    pub events: Vec<GoalEvent>,
}

impl SavingsGoalsContract {
    /// Whether the counters can take one more batch of any accepted size.
    pub open spec fn has_room(&self) -> bool {
        &&& self.last_batch_id < u64::MAX
        &&& self.total_batches_processed < u64::MAX
        &&& self.last_goal_id <= u64::MAX - MAX_BATCH_SIZE
        &&& self.total_goals_created <= u64::MAX - MAX_BATCH_SIZE
    }

    /// Whether the stored goals have ids that go up and none above
    /// `last_goal_id`, so that each id names one goal.
    pub open spec fn well_formed(&self) -> bool {
        &&& forall|i: int, j: int|
            0 <= i < j < self.goals@.len() ==> (#[trigger] self.goals@[i]).goal_id < (
            #[trigger] self.goals@[j]).goal_id
        &&& forall|i: int|
            0 <= i < self.goals@.len() ==> (#[trigger] self.goals@[i]).goal_id
                <= self.last_goal_id
    }

    /// Whether `post` is `pre` after a batch on `reqs` in ledger `ledger`
    /// that returned `result`.
    pub open spec fn committed(
        pre: Self,
        post: Self,
        ledger: u32,
        reqs: Seq<SavingsGoalRequest>,
        result: BatchGoalResult,
    ) -> bool {
        let n = reqs.len() as int;
        let successes = count_true(created_flags(ledger, reqs), n);
        let total_target = saturating_total(target_amounts(ledger, reqs), n);
        &&& result.batch_id == pre.last_batch_id + 1
        &&& result.total_requests == n
        &&& result.successful == successes
        &&& result.failed == n - successes
        &&& result.results@ == batch_results(pre.last_goal_id, ledger, reqs)
        &&& result.metrics == (BatchGoalMetrics {
            total_requests: result.total_requests,
            successful_goals: result.successful,
            failed_goals: result.failed,
            total_target_amount: total_target as i128,
            total_initial_contributions: saturating_total(
                contribution_amounts(ledger, reqs),
                n,
            ) as i128,
            avg_goal_amount: if successes > 0 {
                (total_target / successes) as i128
            } else {
                0
            },
            processed_at: ledger as u64,
        })
        &&& post.admin == pre.admin
        &&& post.last_batch_id == pre.last_batch_id + 1
        &&& post.last_goal_id == pre.last_goal_id + successes
        &&& post.total_goals_created == pre.total_goals_created + successes
        &&& post.total_batches_processed == pre.total_batches_processed + 1
        &&& post.goals@ == pre.goals@ + created_goals(result.results@, n)
        &&& post.events@ == pre.events@ + batch_events(result)
    }

    /// The state of a contract that was just deployed: no administrator, all
    /// counters at 0, no goals, no events.
    pub fn new() -> (c: Self)
        ensures
            c.admin is None,
            c.last_batch_id == 0,
            c.last_goal_id == 0,
            c.total_goals_created == 0,
            c.total_batches_processed == 0,
            c.goals@ == Seq::<SavingsGoal>::empty(),
            c.events@ == Seq::<GoalEvent>::empty(),
            c.well_formed(),
            c.has_room(),
    {
        SavingsGoalsContract {
            admin: None,
            last_batch_id: 0,
            last_goal_id: 0,
            total_goals_created: 0,
            total_batches_processed: 0,
            goals: Vec::new(),
            events: Vec::new(),
        }
    }

    /// Initializes the contract with its administrator. A contract that has
    /// an administrator is left as it is.
    pub fn initialize(&mut self, admin: Address) -> (r: Result<(), AlreadyInitialized>)
        ensures
            old(self).admin is Some ==> r is Err && *final(self) == *old(self),
            old(self).admin is None ==> r is Ok,
            old(self).admin is None ==> final(self).admin == Some(admin),
            old(self).admin is None ==> final(self).last_batch_id == 0,
            old(self).admin is None ==> final(self).last_goal_id == 0,
            old(self).admin is None ==> final(self).total_goals_created == 0,
            old(self).admin is None ==> final(self).total_batches_processed == 0,
            old(self).admin is None ==> final(self).goals == old(self).goals,
            old(self).admin is None ==> final(self).events == old(self).events,
    {
        if self.admin.is_some() {
            return Err(AlreadyInitialized);
        }
        self.admin = Some(admin);
        self.last_batch_id = 0;
        self.last_goal_id = 0;
        self.total_goals_created = 0;
        self.total_batches_processed = 0;
        Ok(())
    }

    /// Whether the counters can take one more batch of any accepted size.
    pub fn can_accept_batch(&self) -> (b: bool)
        ensures
            b == self.has_room(),
    {
        let limit: u64 = u64::MAX - MAX_BATCH_SIZE as u64;
        self.last_batch_id < u64::MAX && self.total_batches_processed < u64::MAX
            && self.last_goal_id <= limit && self.total_goals_created <= limit
    }

    /// Creates savings goals for a batch of requests in ledger
    /// `current_ledger`.
    ///
    /// The call is refused, and the contract left as it was, where the
    /// contract has no administrator, `caller` is not the administrator, the
    /// batch is empty, or it holds more than `MAX_BATCH_SIZE` requests.
    /// Otherwise every request gets a result, in input order: the goal
    /// created under the next goal id, or the user and the code of the first
    /// check that the request fails.
    pub fn batch_set_savings_goals(
        &mut self,
        caller: Address,
        current_ledger: u32,
        requests: &Vec<SavingsGoalRequest>,
    ) -> (r: Result<BatchGoalResult, SavingsGoalError>)
        requires
            old(self).has_room(),
        ensures
            match r {
                Ok(result) => {
                    &&& batch_error(old(self).admin, caller, requests@.len() as int) is None
                    &&& Self::committed(
                        *old(self),
                        *final(self),
                        current_ledger,
                        requests@,
                        result,
                    )
                    &&& result.results@.len() == result.total_requests
                    &&& result.successful + result.failed == result.total_requests
                    &&& forall|i: int|
                        0 <= i < requests@.len() ==> echoes(
                            #[trigger] result.results@[i],
                            requests@[i],
                        )
                    &&& old(self).well_formed() ==> final(self).well_formed()
                },
                Err(e) => batch_error(old(self).admin, caller, requests@.len() as int) == Some(e)
                    && *final(self) == *old(self),
            },
    {
        let count = requests.len();
        match self.check_preconditions(&caller, count) {
            Err(e) => {
                return Err(e);
            },
            Ok(_) => {},
        }
        let request_count: u32 = count as u32;
        let batch_id: u64 = self.last_batch_id + 1;
        let ghost pre_events = self.events@;
        let ghost pre_goals = self.goals@;
        let ghost reqs = requests@;
        let ghost last0 = self.last_goal_id;
        let ghost flags = created_flags(current_ledger, reqs);

        GoalEvents::batch_started(&mut self.events, batch_id, request_count);

        let mut results: Vec<GoalResult> = Vec::new();
        let mut successful_count: u32 = 0;
        let mut failed_count: u32 = 0;
        let mut total_target_amount: i128 = 0;
        let mut total_initial_contributions: i128 = 0;
        let mut goal_id_counter: u64 = self.last_goal_id;

        let mut i: usize = 0;
        while i < count
            invariant
                i <= count,
                0 < count <= MAX_BATCH_SIZE,
                count == requests.len(),
                reqs == requests@,
                flags == created_flags(current_ledger, reqs),
                last0 == old(self).last_goal_id,
                last0 <= u64::MAX - MAX_BATCH_SIZE,
                results.len() == i,
                forall|j: int|
                    0 <= j < i ==> results@[j] == outcome(last0, current_ledger, reqs, j),
                successful_count == count_true(flags, i as int),
                failed_count == i - successful_count,
                successful_count <= i,
                goal_id_counter == last0 + successful_count,
                total_target_amount == saturating_total(
                    target_amounts(current_ledger, reqs),
                    i as int,
                ),
                total_initial_contributions == saturating_total(
                    contribution_amounts(current_ledger, reqs),
                    i as int,
                ),
                self.goals@ == pre_goals + created_goals(results@, i as int),
                self.events@ == pre_events + seq![
                    GoalEvent::BatchStarted { batch_id, request_count },
                ] + item_events(batch_id, results@, i as int),
                self.admin == old(self).admin,
                self.last_batch_id == old(self).last_batch_id,
                self.last_goal_id == old(self).last_goal_id,
                self.total_goals_created == old(self).total_goals_created,
                self.total_batches_processed == old(self).total_batches_processed,
            decreases count - i,
        {
            let request = &requests[i];
            let ghost results_before = results@;
            match validate_goal_request(current_ledger, request) {
                Ok(_) => {
                    // Validation succeeded - create the goal
                    goal_id_counter += 1;
                    let goal = make_goal(request, goal_id_counter, current_ledger);

                    // Accumulate metrics
                    total_target_amount = accumulate(total_target_amount, request.target_amount);
                    total_initial_contributions = accumulate(
                        total_initial_contributions,
                        request.initial_contribution,
                    );
                    successful_count += 1;

                    // Store the goal
                    self.goals.push(copy_goal(&goal));

                    GoalEvents::goal_created(&mut self.events, batch_id, &goal);
                    if request.target_amount >= HIGH_VALUE_GOAL_AMOUNT {
                        GoalEvents::high_value_goal(
                            &mut self.events,
                            batch_id,
                            goal_id_counter,
                            request.target_amount,
                        );
                    }
                    results.push(GoalResult::Success(goal));
                },
                Err(error_code) => {
                    // Validation failed - record failure
                    failed_count += 1;
                    GoalEvents::goal_creation_failed(
                        &mut self.events,
                        batch_id,
                        &request.user,
                        error_code,
                    );
                    results.push(GoalResult::Failure(request.user, error_code));
                },
            }
            proof {
                assert(results@[i as int] == outcome(last0, current_ledger, reqs, i as int));
                lemma_created_goals_prefix(results_before, results@, i as int);
                lemma_item_events_prefix(batch_id, results_before, results@, i as int);
                assert(self.goals@ =~= pre_goals + created_goals(results@, i + 1));
                assert(self.events@ =~= pre_events + seq![
                    GoalEvent::BatchStarted { batch_id, request_count },
                ] + item_events(batch_id, results@, i + 1));
            }
            i += 1;
        }

        proof {
            lemma_saturating_total_nonnegative(target_amounts(current_ledger, reqs), count as int);
        }
        // Calculate average goal amount
        let avg_goal_amount: i128 = if successful_count > 0 {
            total_target_amount / (successful_count as i128)
        } else {
            0
        };

        let metrics = BatchGoalMetrics {
            total_requests: request_count,
            successful_goals: successful_count,
            failed_goals: failed_count,
            total_target_amount,
            total_initial_contributions,
            avg_goal_amount,
            processed_at: current_ledger as u64,
        };

        // Update the counters, once for the whole batch
        self.last_batch_id = batch_id;
        self.last_goal_id = goal_id_counter;
        self.total_goals_created = self.total_goals_created + successful_count as u64;
        self.total_batches_processed = self.total_batches_processed + 1;

        GoalEvents::batch_completed(
            &mut self.events,
            batch_id,
            successful_count,
            failed_count,
            total_target_amount,
        );

        let result = BatchGoalResult {
            batch_id,
            total_requests: request_count,
            successful: successful_count,
            failed: failed_count,
            results,
            metrics,
        };
        proof {
            assert(result.results@ =~= batch_results(last0, current_ledger, reqs));
            assert(self.events@ =~= pre_events + batch_events(result));
            lemma_created_goals_ids(last0, current_ledger, reqs, count as int);
        }
        Ok(result)
    }

    /// The goal stored under `goal_id`, if there is one.
    pub fn get_goal(&self, goal_id: u64) -> (g: Option<SavingsGoal>)
        ensures
            g == find_goal(self.goals@, goal_id, 0),
    {
        let mut i: usize = 0;
        while i < self.goals.len()
            invariant
                i <= self.goals.len(),
                find_goal(self.goals@, goal_id, 0) == find_goal(self.goals@, goal_id, i as int),
            decreases self.goals.len() - i,
        {
            if self.goals[i].goal_id == goal_id {
                return Some(copy_goal(&self.goals[i]));
            }
            i += 1;
        }
        None
    }

    /// The ids of the goals of `user`, in the order of their creation.
    pub fn get_user_goals(&self, user: Address) -> (ids: Vec<u64>)
        ensures
            ids@ == goal_ids_of(self.goals@, user, self.goals@.len() as int),
    {
        let mut ids: Vec<u64> = Vec::new();
        let mut i: usize = 0;
        while i < self.goals.len()
            invariant
                i <= self.goals.len(),
                ids@ == goal_ids_of(self.goals@, user, i as int),
            decreases self.goals.len() - i,
        {
            if self.goals[i].user == user {
                ids.push(self.goals[i].goal_id);
            }
            i += 1;
        }
        ids
    }

    /// The administrator.
    pub fn get_admin(&self) -> (r: Result<Address, SavingsGoalError>)
        ensures
            match self.admin {
                Some(admin) => r == Ok::<Address, SavingsGoalError>(admin),
                None => r == Err::<Address, SavingsGoalError>(SavingsGoalError::NotInitialized),
            },
    {
        match self.admin {
            Some(admin) => Ok(admin),
            None => Err(SavingsGoalError::NotInitialized),
        }
    }

    /// Hands the administration over to `new_admin`. Only the administrator
    /// can do so.
    pub fn set_admin(&mut self, current_admin: Address, new_admin: Address) -> (r: Result<
        (),
        SavingsGoalError,
    >)
        ensures
            match r {
                Ok(_) => {
                    &&& old(self).admin == Some(current_admin)
                    &&& *final(self) == (SavingsGoalsContract {
                        admin: Some(new_admin),
                        ..*old(self)
                    })
                },
                Err(e) => {
                    &&& *final(self) == *old(self)
                    &&& old(self).admin is None ==> e == SavingsGoalError::NotInitialized
                    &&& old(self).admin is Some ==> e == SavingsGoalError::Unauthorized
                        && old(self).admin != Some(current_admin)
                },
            },
    {
        match self.require_admin(&current_admin) {
            Err(e) => {
                return Err(e);
            },
            Ok(_) => {},
        }
        self.admin = Some(new_admin);
        Ok(())
    }

    /// The id of the last batch.
    pub fn get_last_batch_id(&self) -> (n: u64)
        ensures
            n == self.last_batch_id,
    {
        self.last_batch_id
    }

    /// The id of the last goal created.
    pub fn get_last_goal_id(&self) -> (n: u64)
        ensures
            n == self.last_goal_id,
    {
        self.last_goal_id
    }

    /// The number of goals created.
    pub fn get_total_goals_created(&self) -> (n: u64)
        ensures
            n == self.total_goals_created,
    {
        self.total_goals_created
    }

    /// The number of batches processed.
    pub fn get_total_batches_processed(&self) -> (n: u64)
        ensures
            n == self.total_batches_processed,
    {
        self.total_batches_processed
    }

    /// Checks what is asked of a call before any item is touched: that the
    /// contract has an administrator, that `caller` is the administrator,
    /// and that the batch holds at least one item and no more than
    /// `MAX_BATCH_SIZE`.
    pub fn check_preconditions(&self, caller: &Address, count: usize) -> (r: Result<(), SavingsGoalError>)
        ensures
            r == match batch_error(self.admin, *caller, count as int) {
                Some(e) => Err::<(), SavingsGoalError>(e),
                None => Ok::<(), SavingsGoalError>(()),
            },
    {
        match self.require_admin(caller) {
            Err(e) => {
                return Err(e);
            },
            Ok(_) => {},
        }
        if count == 0 {
            return Err(SavingsGoalError::EmptyBatch);
        }
        if count > MAX_BATCH_SIZE as usize {
            return Err(SavingsGoalError::BatchTooLarge);
        }
        Ok(())
    }

    /// Checks that `caller` is the administrator.
    fn require_admin(&self, caller: &Address) -> (r: Result<(), SavingsGoalError>)
        ensures
            match self.admin {
                None => r == Err::<(), SavingsGoalError>(SavingsGoalError::NotInitialized),
                Some(admin) => if admin == *caller {
                    r == Ok::<(), SavingsGoalError>(())
                } else {
                    r == Err::<(), SavingsGoalError>(SavingsGoalError::Unauthorized)
                },
            },
    {
        match self.admin {
            None => Err(SavingsGoalError::NotInitialized),
            Some(admin) => {
                if *caller != admin {
                    Err(SavingsGoalError::Unauthorized)
                } else {
                    Ok(())
                }
            },
        }
    }
}

/// The goals in the first `k` results depend on those results alone.
proof fn lemma_created_goals_prefix(a: Seq<GoalResult>, b: Seq<GoalResult>, k: int)
    requires
        0 <= k <= a.len(),
        k <= b.len(),
        forall|j: int| 0 <= j < k ==> a[j] == b[j],
    ensures
        created_goals(a, k) == created_goals(b, k),
    decreases k,
{
    if k > 0 {
        lemma_created_goals_prefix(a, b, k - 1);
    }
}

/// The events of the first `k` results depend on those results alone.
proof fn lemma_item_events_prefix(batch_id: u64, a: Seq<GoalResult>, b: Seq<GoalResult>, k: int)
    requires
        0 <= k <= a.len(),
        k <= b.len(),
        forall|j: int| 0 <= j < k ==> a[j] == b[j],
    ensures
        item_events(batch_id, a, k) == item_events(batch_id, b, k),
    decreases k,
{
    if k > 0 {
        lemma_item_events_prefix(batch_id, a, b, k - 1);
    }
}

/// Two batches in a row: the batch ids go up by one each, and the last goal
/// id and the number of goals created grow by the goals of both batches.
pub proof fn lemma_batches_accumulate(
    start: SavingsGoalsContract,
    middle: SavingsGoalsContract,
    end: SavingsGoalsContract,
    first_ledger: u32,
    first: Seq<SavingsGoalRequest>,
    first_result: BatchGoalResult,
    second_ledger: u32,
    second: Seq<SavingsGoalRequest>,
    second_result: BatchGoalResult,
)
    requires
        SavingsGoalsContract::committed(start, middle, first_ledger, first, first_result),
        SavingsGoalsContract::committed(middle, end, second_ledger, second, second_result),
    ensures
        first_result.batch_id == start.last_batch_id + 1,
        second_result.batch_id == start.last_batch_id + 2,
        end.last_batch_id == start.last_batch_id + 2,
        end.total_batches_processed == start.total_batches_processed + 2,
        end.last_goal_id == start.last_goal_id + first_result.successful
            + second_result.successful,
        end.total_goals_created == start.total_goals_created + first_result.successful
            + second_result.successful,
        end.goals@ == start.goals@ + created_goals(first_result.results@, first.len() as int)
            + created_goals(second_result.results@, second.len() as int),
        end.events@ == start.events@ + batch_events(first_result) + batch_events(second_result),
{
    assert(end.goals@ =~= start.goals@ + created_goals(
        first_result.results@,
        first.len() as int,
    ) + created_goals(second_result.results@, second.len() as int));
    assert(end.events@ =~= start.events@ + batch_events(first_result) + batch_events(
        second_result,
    ));
}

/// Among goals whose ids go up, each goal is the one found under its id.
pub proof fn lemma_goal_is_found(goals: Seq<SavingsGoal>, i: int)
    requires
        0 <= i < goals.len(),
        forall|a: int, b: int|
            0 <= a < b < goals.len() ==> (#[trigger] goals[a]).goal_id < (
            #[trigger] goals[b]).goal_id,
    ensures
        find_goal(goals, goals[i].goal_id, 0) == Some(goals[i]),
{
    lemma_goal_is_found_from(goals, i, 0);
}

/// Among goals whose ids go up, goal `i` is the first under its id from any
/// place up to its own.
proof fn lemma_goal_is_found_from(goals: Seq<SavingsGoal>, i: int, from: int)
    requires
        0 <= from <= i < goals.len(),
        forall|a: int, b: int|
            0 <= a < b < goals.len() ==> (#[trigger] goals[a]).goal_id < (
            #[trigger] goals[b]).goal_id,
    ensures
        find_goal(goals, goals[i].goal_id, from) == Some(goals[i]),
    decreases i - from,
{
    if from < i {
        lemma_goal_is_found_from(goals, i, from + 1);
    }
}

} // verus!
