//! Data types and events of batch savings goal creation.

use vstd::prelude::*;
use crate::address::Address;

#[allow(non_snake_case)]
pub mod ErrorCode;

verus! {

/// The largest number of requests in one batch.
pub const MAX_BATCH_SIZE: u32 = 100;

/// Minimum goal amount (1 XLM in stroops)
pub const MIN_GOAL_AMOUNT: i128 = 10_000_000;

/// Maximum goal amount (1 billion XLM in stroops)
pub const MAX_GOAL_AMOUNT: i128 = 1_000_000_000_000_000_000;

/// The target from which a goal is reported as a high-value goal.
pub const HIGH_VALUE_GOAL_AMOUNT: i128 = 1_000_000_000_000;

/// The farthest that a deadline may lie ahead, in ledgers (about five years).
pub const MAX_FUTURE_LEDGERS: u64 = 31_536_000;

/// A request to create a savings goal for a user.
#[derive(Clone, Debug, PartialEq, Eq)]
pub struct SavingsGoalRequest {
    /// User's address
    pub user: Address,
    /// Goal name (such as "vacation", "emergency_fund", "house")
    pub goal_name: String,
    /// Target amount to save (in stroops)
    pub target_amount: i128,
    /// Deadline (a ledger sequence number)
    pub deadline: u64,
    /// Initial contribution (may be 0)
    pub initial_contribution: i128,
}

/// A savings goal that was created.
#[derive(Clone, Debug, PartialEq, Eq)]
pub struct SavingsGoal {
    /// Unique goal ID
    pub goal_id: u64,
    /// User's address
    pub user: Address,
    /// Goal name
    pub goal_name: String,
    /// Target amount to save (in stroops)
    pub target_amount: i128,
    /// Amount saved so far (in stroops)
    pub current_amount: i128,
    /// Deadline (a ledger sequence number)
    pub deadline: u64,
    /// The ledger in which the goal was created
    pub created_at: u64,
    /// Whether the goal is active
    pub is_active: bool,
}

/// The result of one request: the goal created, or the user and the code of
/// the check that the request failed.
#[derive(Clone, Debug, PartialEq, Eq)]
pub enum GoalResult {
    Success(SavingsGoal),
    Failure(Address, u32),
}

/// Aggregated metrics of a batch of goal creations.
#[derive(Clone, Copy, Debug, PartialEq, Eq, Structural)]
pub struct BatchGoalMetrics {
    /// Total number of goal requests
    pub total_requests: u32,
    /// Number of goals created
    pub successful_goals: u32,
    /// Number of requests refused
    pub failed_goals: u32,
    /// Total target amount across the goals created
    pub total_target_amount: i128,
    /// Total initial contributions across the goals created
    pub total_initial_contributions: i128,
    /// Average target amount of the goals created
    pub avg_goal_amount: i128,
    /// The ledger in which the batch was processed
    pub processed_at: u64,
}

/// The result of a batch, with one entry of `results` per request, in the
/// order of the requests.
#[derive(Clone, Debug, PartialEq, Eq)]
pub struct BatchGoalResult {
    /// Batch ID
    pub batch_id: u64,
    /// Total number of requests
    pub total_requests: u32,
    /// Number of goals created
    pub successful: u32,
    /// Number of requests refused
    pub failed: u32,
    /// Individual goal results
    pub results: Vec<GoalResult>,
    /// Aggregated metrics
    pub metrics: BatchGoalMetrics,
}

/// An entry of the contract's event trail.
#[derive(Clone, Copy, Debug, PartialEq, Eq, Structural)]
pub enum GoalEvent {
    BatchStarted { batch_id: u64, request_count: u32 },
    GoalCreated { batch_id: u64, goal_id: u64, user: Address, target_amount: i128 },
    GoalCreationFailed { batch_id: u64, user: Address, error_code: u32 },
    BatchCompleted { batch_id: u64, successful: u32, failed: u32, total_amount: i128 },
    HighValueGoal { batch_id: u64, goal_id: u64, amount: i128 },
}

/// The events that the savings goals contract appends to its trail.
pub struct GoalEvents;

impl GoalEvents {
    /// Records that batch `batch_id` has started on `request_count` requests.
    pub fn batch_started(trail: &mut Vec<GoalEvent>, batch_id: u64, request_count: u32)
        ensures
            final(trail)@ == old(trail)@.push(GoalEvent::BatchStarted { batch_id, request_count }),
    {
        trail.push(GoalEvent::BatchStarted { batch_id, request_count });
    }

    /// Records that a goal was created.
    pub fn goal_created(trail: &mut Vec<GoalEvent>, batch_id: u64, goal: &SavingsGoal)
        ensures
            final(trail)@ == old(trail)@.push(
                GoalEvent::GoalCreated {
                    batch_id,
                    goal_id: goal.goal_id,
                    user: goal.user,
                    target_amount: goal.target_amount,
                },
            ),
    {
        trail.push(
            GoalEvent::GoalCreated {
                batch_id,
                goal_id: goal.goal_id,
                user: goal.user,
                target_amount: goal.target_amount,
            },
        );
    }

    /// Records that a request was refused, with its error code.
    pub fn goal_creation_failed(
        trail: &mut Vec<GoalEvent>,
        batch_id: u64,
        user: &Address,
        error_code: u32,
    )
        ensures
            final(trail)@ == old(trail)@.push(
                GoalEvent::GoalCreationFailed { batch_id, user: *user, error_code },
            ),
    {
        trail.push(GoalEvent::GoalCreationFailed { batch_id, user: *user, error_code });
    }

    /// Records that batch `batch_id` is complete, with its counts and the
    /// total of the targets.
    pub fn batch_completed(
        trail: &mut Vec<GoalEvent>,
        batch_id: u64,
        successful: u32,
        failed: u32,
        total_amount: i128,
    )
        ensures
            final(trail)@ == old(trail)@.push(
                GoalEvent::BatchCompleted { batch_id, successful, failed, total_amount },
            ),
    {
        trail.push(GoalEvent::BatchCompleted { batch_id, successful, failed, total_amount });
    }

    /// Records a goal whose target is at least `HIGH_VALUE_GOAL_AMOUNT`.
    pub fn high_value_goal(trail: &mut Vec<GoalEvent>, batch_id: u64, goal_id: u64, amount: i128)
        ensures
            final(trail)@ == old(trail)@.push(GoalEvent::HighValueGoal { batch_id, goal_id, amount }),
    {
        trail.push(GoalEvent::HighValueGoal { batch_id, goal_id, amount });
    }
}

} // verus!
