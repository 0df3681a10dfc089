//! Item codes of goal validation and creation.

use vstd::prelude::*;

verus! {

/// Invalid goal amount (too low or too high)
pub const INVALID_AMOUNT: u32 = 0;

/// Invalid deadline (in the past or too far in the future)
pub const INVALID_DEADLINE: u32 = 1;

/// Invalid initial contribution (negative or above the target)
pub const INVALID_INITIAL_CONTRIBUTION: u32 = 2;

/// Goal name is empty or invalid
pub const INVALID_GOAL_NAME: u32 = 3;

/// User address is invalid
pub const INVALID_USER_ADDRESS: u32 = 4;

} // verus!
