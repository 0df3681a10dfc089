//! Profiles, recommendations, results and events of budget recommendation.

use vstd::prelude::*;
use crate::address::Address;

verus! {

/// The largest number of profiles in one batch.
pub const MAX_BATCH_SIZE: u32 = 100;

/// The financial snapshot of one user.
#[derive(Clone, Debug, PartialEq, Eq)]
pub struct UserProfile {
    pub user_id: u64,
    pub address: Address,
    pub monthly_income: i128,
    pub monthly_expenses: i128,
    pub savings_balance: i128,
    /// The user's spending categories; carried along, never read.
    pub spending_categories: String,
    /// The user's appetite for risk, from 1 (lowest) to 5 (highest).
    pub risk_tolerance: u8,
}

/// The band that a risk tolerance falls in, which is also the kind of the
/// recommendation.
#[derive(Clone, Copy, Debug, PartialEq, Eq, Structural)]
pub enum RecommendationType {
    /// Risk tolerance 1 or 2
    Conservative,
    /// Risk tolerance 3
    Moderate,
    /// Risk tolerance 4 or 5
    Aggressive,
}

impl RecommendationType {
    /// The label of the band.
    pub fn label(self) -> (s: &'static str)
        ensures
            self == RecommendationType::Conservative ==> s@ == "conservative"@,
            self == RecommendationType::Moderate ==> s@ == "moderate"@,
            self == RecommendationType::Aggressive ==> s@ == "aggressive"@,
    {
        match self {
            RecommendationType::Conservative => "conservative",
            RecommendationType::Moderate => "moderate",
            RecommendationType::Aggressive => "aggressive",
        }
    }
}

/// The remark that goes with a recommendation.
#[derive(Clone, Copy, Debug, PartialEq, Eq, Structural)]
pub enum RecommendationNote {
    /// The expenses are above the income.
    ExpensesExceedIncome,
    /// The savings are below the emergency fund target.
    BuildEmergencyFund,
    /// The savings cover the emergency fund target.
    OnTrack,
}

impl RecommendationNote {
    /// The label of the remark.
    pub fn label(self) -> (s: &'static str)
        ensures
            self == RecommendationNote::ExpensesExceedIncome ==> s@
                == "expenses_exceed_income_review_needed"@,
            self == RecommendationNote::BuildEmergencyFund ==> s@ == "build_emergency_fund"@,
            self == RecommendationNote::OnTrack ==> s@ == "on_track"@,
    {
        match self {
            RecommendationNote::ExpensesExceedIncome => "expenses_exceed_income_review_needed",
            RecommendationNote::BuildEmergencyFund => "build_emergency_fund",
            RecommendationNote::OnTrack => "on_track",
        }
    }
}

/// A recommendation for one user.
#[derive(Clone, Copy, Debug, PartialEq, Eq, Structural)]
pub struct BudgetRecommendation {
    pub user_id: u64,
    pub recommended_budget: i128,
    pub recommended_savings: i128,
    pub emergency_fund_target: i128,
    /// From 0 to 100
    pub confidence_score: u32,
    pub recommendation_type: RecommendationType,
    pub notes: RecommendationNote,
}

/// The result for one profile: the recommendation, or the user's id and the
/// code of the check that the profile failed.
#[derive(Clone, Copy, Debug, PartialEq, Eq, Structural)]
pub enum RecommendationResult {
    Success(BudgetRecommendation),
    Failure(u64, u32),
}

/// Aggregated metrics of a batch of recommendations.
#[derive(Clone, Copy, Debug, PartialEq, Eq, Structural)]
pub struct BatchRecommendationMetrics {
    pub user_count: u32,
    pub successful_recommendations: u32,
    pub failed_recommendations: u32,
    pub total_recommended_budget: i128,
    pub total_recommended_savings: i128,
}

/// The result of a batch, with one entry of `results` per profile, in the
/// order of the profiles.
#[derive(Clone, Debug, PartialEq, Eq)]
pub struct BatchRecommendationResult {
    pub batch_id: u64,
    pub total_users: u32,
    pub successful: u32,
    pub failed: u32,
    pub results: Vec<RecommendationResult>,
    pub metrics: BatchRecommendationMetrics,
}

/// The results of one batch as the contract keeps them.
#[derive(Clone, Debug, PartialEq, Eq)]
pub struct StoredBatch {
    pub batch_id: u64,
    pub results: Vec<RecommendationResult>,
}

/// An entry of the contract's event trail.
#[derive(Clone, Copy, Debug, PartialEq, Eq, Structural)]
pub enum RecommendationEvent {
    BatchStarted { batch_id: u64, user_count: u32 },
    RecommendationGenerated {
        batch_id: u64,
        user_id: u64,
        recommended_budget: i128,
        recommended_savings: i128,
        confidence_score: u32,
    },
    RecommendationFailed { batch_id: u64, user_id: u64, error_code: u32 },
    /// Follows the recommendation of a user whose expenses exceed the income.
    OverspendingFlagged { batch_id: u64, user_id: u64 },
    BatchCompleted { batch_id: u64, successful: u32, failed: u32, total_recommended_budget: i128 },
}

/// The events that the recommendation contract appends to its trail.
pub struct RecommendationEvents;

impl RecommendationEvents {
    /// Records that batch `batch_id` has started on `user_count` profiles.
    pub fn batch_started(trail: &mut Vec<RecommendationEvent>, batch_id: u64, user_count: u32)
        ensures
            final(trail)@ == old(trail)@.push(
                RecommendationEvent::BatchStarted { batch_id, user_count },
            ),
    {
        trail.push(RecommendationEvent::BatchStarted { batch_id, user_count });
    }

    /// Records a recommendation.
    pub fn recommendation_generated(
        trail: &mut Vec<RecommendationEvent>,
        batch_id: u64,
        recommendation: &BudgetRecommendation,
    )
        ensures
            final(trail)@ == old(trail)@.push(
                RecommendationEvent::RecommendationGenerated {
                    batch_id,
                    user_id: recommendation.user_id,
                    recommended_budget: recommendation.recommended_budget,
                    recommended_savings: recommendation.recommended_savings,
                    confidence_score: recommendation.confidence_score,
                },
            ),
    {
        trail.push(
            RecommendationEvent::RecommendationGenerated {
                batch_id,
                user_id: recommendation.user_id,
                recommended_budget: recommendation.recommended_budget,
                recommended_savings: recommendation.recommended_savings,
                confidence_score: recommendation.confidence_score,
            },
        );
    }

    /// Records that a profile was refused, with its error code.
    pub fn recommendation_failed(
        trail: &mut Vec<RecommendationEvent>,
        batch_id: u64,
        user_id: u64,
        error_code: u32,
    )
        ensures
            final(trail)@ == old(trail)@.push(
                RecommendationEvent::RecommendationFailed { batch_id, user_id, error_code },
            ),
    {
        trail.push(RecommendationEvent::RecommendationFailed { batch_id, user_id, error_code });
    }

    /// Records that the expenses of a user exceed the income.
    pub fn overspending_flagged(trail: &mut Vec<RecommendationEvent>, batch_id: u64, user_id: u64)
        ensures
            final(trail)@ == old(trail)@.push(
                RecommendationEvent::OverspendingFlagged { batch_id, user_id },
            ),
    {
        trail.push(RecommendationEvent::OverspendingFlagged { batch_id, user_id });
    }

    /// Records that batch `batch_id` is complete, with its counts and the
    /// total of the budgets recommended.
    pub fn batch_completed(
        trail: &mut Vec<RecommendationEvent>,
        batch_id: u64,
        successful: u32,
        failed: u32,
        total_recommended_budget: i128,
    )
        ensures
            final(trail)@ == old(trail)@.push(
                RecommendationEvent::BatchCompleted {
                    batch_id,
                    successful,
                    failed,
                    total_recommended_budget,
                },
            ),
    {
        trail.push(
            RecommendationEvent::BatchCompleted {
                batch_id,
                successful,
                failed,
                total_recommended_budget,
            },
        );
    }
}

} // verus!
