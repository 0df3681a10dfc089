//! Validation of savings goal requests.

use vstd::prelude::*;
use crate::address::Address;
use crate::savings_goals::types::{
    ErrorCode, SavingsGoalRequest, MAX_FUTURE_LEDGERS, MAX_GOAL_AMOUNT, MIN_GOAL_AMOUNT,
};

verus! {

/// Whether a deadline lies after `current_ledger` and no more than
/// `MAX_FUTURE_LEDGERS` after it.
pub open spec fn deadline_in_range(current_ledger: u32, deadline: u64) -> bool {
    current_ledger < deadline <= current_ledger + MAX_FUTURE_LEDGERS
}

/// What validation says of a request in ledger `current_ledger`: `Ok`, or the
/// code of the first check that fails. The target is checked first, then the
/// deadline, then the initial contribution.
pub open spec fn validation_result(current_ledger: u32, request: SavingsGoalRequest) -> Result<
    (),
    u32,
> {
    if !(MIN_GOAL_AMOUNT <= request.target_amount <= MAX_GOAL_AMOUNT) {
        Err(ErrorCode::INVALID_AMOUNT)
    } else if !deadline_in_range(current_ledger, request.deadline) {
        Err(ErrorCode::INVALID_DEADLINE)
    } else if !(0 <= request.initial_contribution <= request.target_amount) {
        Err(ErrorCode::INVALID_INITIAL_CONTRIBUTION)
    } else {
        Ok(())
    }
}

/// Validates a savings goal request in ledger `current_ledger`.
pub fn validate_goal_request(current_ledger: u32, request: &SavingsGoalRequest) -> (r: Result<
    (),
    u32,
>)
    ensures
        r == validation_result(current_ledger, *request),
{
    if !is_valid_address(&request.user) {
        return Err(ErrorCode::INVALID_USER_ADDRESS);
    }
    if !is_valid_amount(request.target_amount) {
        return Err(ErrorCode::INVALID_AMOUNT);
    }
    if !is_valid_deadline(current_ledger, request.deadline) {
        return Err(ErrorCode::INVALID_DEADLINE);
    }
    if !is_valid_initial_contribution(request.initial_contribution, request.target_amount) {
        return Err(ErrorCode::INVALID_INITIAL_CONTRIBUTION);
    }
    Ok(())
}

/// Every address that can be written down is valid.
fn is_valid_address(_address: &Address) -> (b: bool)
    ensures
        b,
{
    true
}

/// Whether a target amount is at least `MIN_GOAL_AMOUNT` and at most
/// `MAX_GOAL_AMOUNT`.
pub fn is_valid_amount(amount: i128) -> (b: bool)
    ensures
        b == (MIN_GOAL_AMOUNT <= amount <= MAX_GOAL_AMOUNT),
{
    amount >= MIN_GOAL_AMOUNT && amount <= MAX_GOAL_AMOUNT
}

/// Whether a deadline is in the future, but not too far.
pub fn is_valid_deadline(current_ledger: u32, deadline: u64) -> (b: bool)
    ensures
        b == deadline_in_range(current_ledger, deadline),
{
    let current: u64 = current_ledger as u64;

    // Deadline must be in the future
    if deadline <= current {
        return false;
    }
    // Deadline must not be more than about five years away
    if deadline > current + MAX_FUTURE_LEDGERS {
        return false;
    }
    true
}

/// Whether an initial contribution is neither negative nor above the target.
pub fn is_valid_initial_contribution(initial_contribution: i128, target_amount: i128) -> (b: bool)
    ensures
        b == (0 <= initial_contribution <= target_amount),
{
    // Initial contribution must be non-negative
    if initial_contribution < 0 {
        return false;
    }
    // Initial contribution cannot exceed target amount
    if initial_contribution > target_amount {
        return false;
    }
    true
}

/// Validates the shape of a batch: it must hold a request.
pub fn validate_batch(requests: &Vec<SavingsGoalRequest>) -> (r: Result<(), ()>)
    ensures
        r is Ok <==> requests@.len() > 0,
{
    if requests.len() == 0 {
        return Err(());
    }
    Ok(())
}

} // verus!
