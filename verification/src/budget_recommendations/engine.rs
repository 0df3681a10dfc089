//! The decision engine: from one user's finances and risk tolerance to a
//! recommendation.
//!
//! The engine reads nothing but the profile and keeps nothing, so one
//! profile always gets the same recommendation.
//!
//! The risk tolerance falls in one of three bands, which set the share of
//! the net income to save and the months of expenses to hold in reserve:
//!
//! | band         | tolerance | savings | budget | reserve  |
//! |--------------|-----------|---------|--------|----------|
//! | conservative | 1, 2      | 30 %    | 70 %   | 6 months |
//! | moderate     | 3         | 20 %    | 80 %   | 4 months |
//! | aggressive   | 4, 5      | 10 %    | 90 %   | 3 months |
//!
//! The net income is the income less the expenses. Where it is positive, the
//! savings and the budget recommended are its shares, rounded down; where it
//! is not, both are 0. The emergency fund target is the expenses times the
//! months of reserve, held at the bound of `i128`.
//!
//! The confidence score starts at 50 and gains 25 for a positive net income,
//! 5 for savings above 0, 10 more for savings of at least three months of
//! expenses, and 10 more for at least six months.

use vstd::prelude::*;
use crate::budget_recommendations::types::{
    BudgetRecommendation, RecommendationNote, RecommendationType, UserProfile,
};

verus! {

/// Item code: the income is negative.
pub const INVALID_INCOME: u32 = 0;

/// Item code: the expenses are negative.
pub const INVALID_EXPENSES: u32 = 1;

/// Item code: the savings are negative.
pub const INVALID_SAVINGS: u32 = 2;

/// Item code: the risk tolerance is not one of 1 to 5.
pub const INVALID_RISK_TOLERANCE: u32 = 3;

/// The least score of the top band of confidence.
pub const HIGH_CONFIDENCE: u32 = 85;

/// What validation says of a profile: `Ok`, or the code of the first check
/// that fails. The income is checked first, then the expenses, the savings
/// and the risk tolerance.
pub open spec fn profile_check(p: UserProfile) -> Result<(), u32> {
    if p.monthly_income < 0 {
        Err(INVALID_INCOME)
    } else if p.monthly_expenses < 0 {
        Err(INVALID_EXPENSES)
    } else if p.savings_balance < 0 {
        Err(INVALID_SAVINGS)
    } else if !(1 <= p.risk_tolerance <= 5) {
        Err(INVALID_RISK_TOLERANCE)
    } else {
        Ok(())
    }
}

/// The band of a risk tolerance from 1 to 5.
pub open spec fn band_of(risk_tolerance: u8) -> RecommendationType {
    if risk_tolerance <= 2 {
        RecommendationType::Conservative
    } else if risk_tolerance == 3 {
        RecommendationType::Moderate
    } else {
        RecommendationType::Aggressive
    }
}

/// The share of the net income to save, in percent.
pub open spec fn savings_percent(band: RecommendationType) -> int {
    match band {
        RecommendationType::Conservative => 30,
        RecommendationType::Moderate => 20,
        RecommendationType::Aggressive => 10,
    }
}

/// The months of expenses to hold in reserve.
pub open spec fn reserve_months(band: RecommendationType) -> int {
    match band {
        RecommendationType::Conservative => 6,
        RecommendationType::Moderate => 4,
        RecommendationType::Aggressive => 3,
    }
}

/// `percent` hundredths of `amount`, rounded down.
pub open spec fn percent_of(amount: int, percent: int) -> int {
    amount * percent / 100
}

/// The income less the expenses.
pub open spec fn net_income(p: UserProfile) -> int {
    p.monthly_income - p.monthly_expenses
}

/// The savings recommended: the band's share of a positive net income.
pub open spec fn recommended_savings(p: UserProfile) -> int {
    if net_income(p) > 0 {
        percent_of(net_income(p), savings_percent(band_of(p.risk_tolerance)))
    } else {
        0
    }
}

/// The budget recommended: the rest of the band's shares of a positive net
/// income.
pub open spec fn recommended_budget(p: UserProfile) -> int {
    if net_income(p) > 0 {
        percent_of(net_income(p), 100 - savings_percent(band_of(p.risk_tolerance)))
    } else {
        0
    }
}

/// The emergency fund target: the band's months of expenses, held at the
/// bound of `i128`.
pub open spec fn emergency_fund_target(p: UserProfile) -> int {
    let target = p.monthly_expenses * reserve_months(band_of(p.risk_tolerance));
    if target > i128::MAX {
        i128::MAX as int
    } else {
        target
    }
}

/// The confidence score, from 50 to 100.
pub open spec fn confidence_score(p: UserProfile) -> int {
    50 + (if p.monthly_income > p.monthly_expenses {
        25int
    } else {
        0
    }) + (if p.savings_balance > 0 {
        5int
    } else {
        0
    }) + (if p.savings_balance > 0 && p.savings_balance >= 3 * p.monthly_expenses {
        10int
    } else {
        0
    }) + (if p.savings_balance > 0 && p.savings_balance >= 6 * p.monthly_expenses {
        10int
    } else {
        0
    })
}

/// The remark: on expenses above the income first, then on savings below the
/// emergency fund target.
pub open spec fn note_of(p: UserProfile) -> RecommendationNote {
    if p.monthly_expenses > p.monthly_income {
        RecommendationNote::ExpensesExceedIncome
    } else if p.savings_balance < emergency_fund_target(p) {
        RecommendationNote::BuildEmergencyFund
    } else {
        RecommendationNote::OnTrack
    }
}

/// The recommendation for a profile that passes validation.
pub open spec fn recommendation_for(p: UserProfile) -> BudgetRecommendation {
    BudgetRecommendation {
        user_id: p.user_id,
        recommended_budget: recommended_budget(p) as i128,
        recommended_savings: recommended_savings(p) as i128,
        emergency_fund_target: emergency_fund_target(p) as i128,
        confidence_score: confidence_score(p) as u32,
        recommendation_type: band_of(p.risk_tolerance),
        notes: note_of(p),
    }
}

/// What the engine returns for a profile: its recommendation where it passes
/// validation, the code of the check it fails where it does not.
pub open spec fn recommend_spec(p: UserProfile) -> Result<BudgetRecommendation, u32> {
    match profile_check(p) {
        Ok(_) => Ok(recommendation_for(p)),
        Err(error_code) => Err(error_code),
    }
}

/// Validates a profile.
pub fn validate_user_profile(profile: &UserProfile) -> (r: Result<(), u32>)
    ensures
        r == profile_check(*profile),
{
    if profile.monthly_income < 0 {
        return Err(INVALID_INCOME);
    }
    if profile.monthly_expenses < 0 {
        return Err(INVALID_EXPENSES);
    }
    if profile.savings_balance < 0 {
        return Err(INVALID_SAVINGS);
    }
    if profile.risk_tolerance < 1 || profile.risk_tolerance > 5 {
        return Err(INVALID_RISK_TOLERANCE);
    }
    Ok(())
}

/// The band of a risk tolerance.
pub fn classify_risk(risk_tolerance: u8) -> (band: RecommendationType)
    ensures
        band == band_of(risk_tolerance),
{
    if risk_tolerance <= 2 {
        RecommendationType::Conservative
    } else if risk_tolerance == 3 {
        RecommendationType::Moderate
    } else {
        RecommendationType::Aggressive
    }
}

/// `percent` hundredths of `amount`, rounded down, computed without
/// overflow.
fn take_percent(amount: i128, percent: i128) -> (share: i128)
    requires
        0 <= amount,
        0 <= percent <= 100,
    ensures
        share == percent_of(amount as int, percent as int),
        0 <= share <= amount,
{
    let hundreds: i128 = amount / 100;
    let rest: i128 = amount % 100;
    proof {
        let a = amount as int;
        let h = hundreds as int;
        let r = rest as int;
        let p = percent as int;
        assert(a == 100 * h + r && 0 <= r < 100 && 0 <= h);
        assert(0 <= h * p <= h * 100) by (nonlinear_arith)
            requires
                0 <= h,
                0 <= p <= 100,
        ;
        assert(0 <= r * p <= 99 * 100) by (nonlinear_arith)
            requires
                0 <= r <= 99,
                0 <= p <= 100,
        ;
        assert(r * p <= r * 100) by (nonlinear_arith)
            requires
                0 <= r,
                0 <= p <= 100,
        ;
        assert(a * p == 100 * (h * p) + r * p) by (nonlinear_arith)
            requires
                a == 100 * h + r,
        ;
        assert((100 * (h * p) + r * p) / 100 == h * p + (r * p) / 100);
    }
    hundreds * percent + rest * percent / 100
}

/// The band's months of `expenses`, held at the bound of `i128`.
fn reserve_target(expenses: i128, band: RecommendationType) -> (target: i128)
    requires
        0 <= expenses,
    ensures
        target == if expenses * reserve_months(band) > i128::MAX {
            i128::MAX as int
        } else {
            expenses * reserve_months(band)
        },
{
    let months: i128 = match band {
        RecommendationType::Conservative => 6,
        RecommendationType::Moderate => 4,
        RecommendationType::Aggressive => 3,
    };
    match expenses.checked_mul(months) {
        Some(target) => target,
        None => i128::MAX,
    }
}

/// The confidence score of a profile that passes validation.
fn score_confidence(profile: &UserProfile) -> (score: u32)
    requires
        profile_check(*profile) is Ok,
    ensures
        score == confidence_score(*profile),
        50 <= score <= 100,
{
    let mut score: u32 = 50;
    if profile.monthly_income > profile.monthly_expenses {
        score += 25;
    }
    if profile.savings_balance > 0 {
        score += 5;
        if profile.savings_balance / 3 >= profile.monthly_expenses {
            score += 10;
        }
        if profile.savings_balance / 6 >= profile.monthly_expenses {
            score += 10;
        }
    }
    score
}

/// Recommends a budget, savings and an emergency fund for one profile, with
/// a confidence score; or returns the code of the check that the profile
/// fails.
pub fn recommend(profile: &UserProfile) -> (r: Result<BudgetRecommendation, u32>)
    ensures
        r == recommend_spec(*profile),
{
    match validate_user_profile(profile) {
        Err(error_code) => {
            return Err(error_code);
        },
        Ok(_) => {},
    }
    let band = classify_risk(profile.risk_tolerance);
    let savings_share: i128 = match band {
        RecommendationType::Conservative => 30,
        RecommendationType::Moderate => 20,
        RecommendationType::Aggressive => 10,
    };
    let net: i128 = profile.monthly_income - profile.monthly_expenses;
    let (budget, savings): (i128, i128) = if net > 0 {
        (take_percent(net, 100 - savings_share), take_percent(net, savings_share))
    } else {
        (0, 0)
    };
    let target = reserve_target(profile.monthly_expenses, band);
    let notes = if profile.monthly_expenses > profile.monthly_income {
        RecommendationNote::ExpensesExceedIncome
    } else if profile.savings_balance < target {
        RecommendationNote::BuildEmergencyFund
    } else {
        RecommendationNote::OnTrack
    };
    Ok(
        BudgetRecommendation {
            user_id: profile.user_id,
            recommended_budget: budget,
            recommended_savings: savings,
            emergency_fund_target: target,
            confidence_score: score_confidence(profile),
            recommendation_type: band,
            notes,
        },
    )
}

/// Determinism: the engine's answer is a function of the user's id, income,
/// expenses, savings and risk tolerance. Two profiles that agree on these get
/// the same answer, whatever else they hold.
pub proof fn lemma_recommendation_is_determined(p: UserProfile, q: UserProfile)
    requires
        p.user_id == q.user_id,
        p.monthly_income == q.monthly_income,
        p.monthly_expenses == q.monthly_expenses,
        p.savings_balance == q.savings_balance,
        p.risk_tolerance == q.risk_tolerance,
    ensures
        recommend_spec(p) == recommend_spec(q),
{
}

/// The kind of a recommendation is the band of the risk tolerance: 1 and 2
/// are conservative, 3 is moderate, 4 and 5 are aggressive.
pub proof fn lemma_kind_follows_risk(p: UserProfile)
    requires
        profile_check(p) is Ok,
    ensures
        recommend_spec(p) is Ok,
        recommend_spec(p)->Ok_0.recommendation_type == (if p.risk_tolerance <= 2 {
            RecommendationType::Conservative
        } else if p.risk_tolerance == 3 {
            RecommendationType::Moderate
        } else {
            RecommendationType::Aggressive
        }),
{
}

/// For the same expenses, the emergency fund target of a conservative
/// profile is at least that of a moderate one, which is at least that of an
/// aggressive one; and the conservative target is above the aggressive one
/// where there are expenses and the target is not held at the bound.
pub proof fn lemma_emergency_target_ordering(
    conservative: UserProfile,
    moderate: UserProfile,
    aggressive: UserProfile,
)
    requires
        profile_check(conservative) is Ok,
        profile_check(moderate) is Ok,
        profile_check(aggressive) is Ok,
        band_of(conservative.risk_tolerance) == RecommendationType::Conservative,
        band_of(moderate.risk_tolerance) == RecommendationType::Moderate,
        band_of(aggressive.risk_tolerance) == RecommendationType::Aggressive,
        conservative.monthly_expenses == moderate.monthly_expenses,
        moderate.monthly_expenses == aggressive.monthly_expenses,
    ensures
        emergency_fund_target(conservative) >= emergency_fund_target(moderate),
        emergency_fund_target(moderate) >= emergency_fund_target(aggressive),
        0 < conservative.monthly_expenses && 6 * conservative.monthly_expenses <= i128::MAX
            ==> emergency_fund_target(conservative) > emergency_fund_target(aggressive),
{
}

/// For the same income and expenses, a conservative profile is told to save
/// at least as much as a moderate one, and a moderate one at least as much
/// as an aggressive one.
pub proof fn lemma_savings_ordering(
    conservative: UserProfile,
    moderate: UserProfile,
    aggressive: UserProfile,
)
    requires
        band_of(conservative.risk_tolerance) == RecommendationType::Conservative,
        band_of(moderate.risk_tolerance) == RecommendationType::Moderate,
        band_of(aggressive.risk_tolerance) == RecommendationType::Aggressive,
        net_income(conservative) == net_income(moderate),
        net_income(moderate) == net_income(aggressive),
    ensures
        recommended_savings(conservative) >= recommended_savings(moderate),
        recommended_savings(moderate) >= recommended_savings(aggressive),
{
    let net = net_income(conservative);
    if net > 0 {
        assert(net * 30 >= net * 20 && net * 20 >= net * 10);
    }
}

/// What is recommended is never negative, and the budget and the savings
/// together never exceed a positive net income.
pub proof fn lemma_shares_within_net_income(p: UserProfile)
    requires
        profile_check(p) is Ok,
    ensures
        0 <= recommended_budget(p),
        0 <= recommended_savings(p),
        0 <= emergency_fund_target(p),
        net_income(p) > 0 ==> recommended_budget(p) + recommended_savings(p) <= net_income(p),
{
    let net = net_income(p);
    let share = savings_percent(band_of(p.risk_tolerance));
    if net > 0 {
        assert(net * share + net * (100 - share) == net * 100) by (nonlinear_arith);
        assert(0 <= net * share) by (nonlinear_arith)
            requires
                0 < net,
                0 <= share,
        ;
        assert(0 <= net * (100 - share)) by (nonlinear_arith)
            requires
                0 < net,
                share <= 100,
        ;
    }
    assert(0 <= p.monthly_expenses * reserve_months(band_of(p.risk_tolerance)))
        by (nonlinear_arith)
        requires
            0 <= p.monthly_expenses,
            0 <= reserve_months(band_of(p.risk_tolerance)),
    ;
}

/// The score lies between 50 and 100 and does not fall as the savings grow.
pub proof fn lemma_confidence_grows_with_savings(p: UserProfile, q: UserProfile)
    requires
        p.monthly_income == q.monthly_income,
        p.monthly_expenses == q.monthly_expenses,
        p.savings_balance <= q.savings_balance,
    ensures
        50 <= confidence_score(p) <= confidence_score(q) <= 100,
{
}

/// A positive net income and savings of at least three months of expenses
/// give a score in the top band.
pub proof fn lemma_sound_finances_score_high(p: UserProfile)
    requires
        p.monthly_income > p.monthly_expenses,
        p.savings_balance > 0,
        p.savings_balance >= 3 * p.monthly_expenses,
    ensures
        confidence_score(p) >= HIGH_CONFIDENCE,
{
}

/// Expenses above the income are remarked on, and keep the score out of the
/// top band without taking it below 50.
pub proof fn lemma_overspending_is_flagged(p: UserProfile)
    requires
        p.monthly_expenses > p.monthly_income,
    ensures
        note_of(p) == RecommendationNote::ExpensesExceedIncome,
        50 <= confidence_score(p) < HIGH_CONFIDENCE,
{
}

} // verus!
