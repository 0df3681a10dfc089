//! Counting and overflow-safe aggregation shared by the batch processors.

use vstd::prelude::*;

verus! {

/// The outcome of validating one item: whether it may be executed, and the
/// contract's error code for it where it may not.
#[derive(Clone, Copy, Debug, PartialEq, Eq, Structural)]
pub struct ValidationOutcome {
    pub valid: bool,
    pub error_code: u32,
}

/// The error of initializing a contract a second time.
#[derive(Clone, Copy, Debug, PartialEq, Eq, Structural)]
pub struct AlreadyInitialized;

/// The number of `true` among the first `k` flags.
pub open spec fn count_true(flags: Seq<bool>, k: int) -> int
    decreases k,
{
    if k <= 0 {
        0
    } else {
        count_true(flags, k - 1) + if flags[k - 1] { 1int } else { 0int }
    }
}

/// `a + b`, held at the bounds of `i128`.
pub open spec fn saturating_sum(a: int, b: int) -> int {
    if a + b > i128::MAX {
        i128::MAX as int
    } else if a + b < i128::MIN {
        i128::MIN as int
    } else {
        a + b
    }
}

/// The first `k` amounts added up from the left, each step held at the bounds
/// of `i128`.
pub open spec fn saturating_total(amounts: Seq<int>, k: int) -> int
    decreases k,
{
    if k <= 0 {
        0
    } else {
        saturating_sum(saturating_total(amounts, k - 1), amounts[k - 1])
    }
}

/// Among `k` flags no more than `k` are set.
pub proof fn lemma_count_true_bounds(flags: Seq<bool>, k: int)
    requires
        0 <= k,
    ensures
        0 <= count_true(flags, k) <= k,
    decreases k,
{
    if k > 0 {
        lemma_count_true_bounds(flags, k - 1);
    }
}

/// A saturating total of amounts that are never negative is never negative.
pub proof fn lemma_saturating_total_nonnegative(amounts: Seq<int>, k: int)
    requires
        0 <= k <= amounts.len(),
        forall|i: int| 0 <= i < k ==> 0 <= #[trigger] amounts[i],
    ensures
        0 <= saturating_total(amounts, k) <= i128::MAX,
    decreases k,
{
    if k > 0 {
        lemma_saturating_total_nonnegative(amounts, k - 1);
    }
}

/// Adds `amount` to `total`; on overflow the sum stays at the bound it would
/// have passed.
pub fn accumulate(total: i128, amount: i128) -> (r: i128)
    ensures
        r == saturating_sum(total as int, amount as int),
{
    match total.checked_add(amount) {
        Some(sum) => sum,
        None => if amount > 0 {
            i128::MAX
        } else {
            i128::MIN
        },
    }
}

/// Where each of the first `k` flags is set, `k` are set.
pub proof fn lemma_count_true_all(flags: Seq<bool>, k: int)
    requires
        0 <= k <= flags.len(),
        forall|i: int| 0 <= i < k ==> flags[i],
    ensures
        count_true(flags, k) == k,
    decreases k,
{
    if k > 0 {
        lemma_count_true_all(flags, k - 1);
    }
}

} // verus!
