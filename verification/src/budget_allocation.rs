//! Batch allocation of monthly budgets.
//!
//! The administrator assigns budgets to many users in one call. A request
//! with a negative amount is refused and counted; every other request
//! replaces what was stored for its user.

use vstd::prelude::*;
use crate::address::Address;
use crate::store::EntityStore;
use crate::tally::{accumulate, count_true, saturating_total, AlreadyInitialized};
use crate::budget_allocation::types::{
    BatchBudgetResult, BudgetEvent, BudgetRecord, BudgetRequest, MAX_BATCH_SIZE,
};

pub mod types;

verus! {

/// The errors that void a whole call.
#[derive(Copy, Clone, Debug, Eq, PartialEq, Structural)]
pub enum BudgetAllocationError {
    /// Contract not initialized
    NotInitialized,
    /// Caller is not the administrator
    Unauthorized,
    /// Batch is empty
    EmptyBatch,
    /// Batch exceeds maximum size
    BatchTooLarge,
}

/// Whether a request is accepted: its amount is not negative.
pub open spec fn is_accepted(r: BudgetRequest) -> bool {
    r.amount >= 0
}

/// For each request, whether it is accepted.
pub open spec fn accepted_flags(reqs: Seq<BudgetRequest>) -> Seq<bool> {
    Seq::new(reqs.len(), |i: int| is_accepted(reqs[i]))
}

/// For each request, the amount that it adds to the batch's total: its own
/// where it is accepted, nothing where it is not.
pub open spec fn allocated_amounts(reqs: Seq<BudgetRequest>) -> Seq<int> {
    Seq::new(
        reqs.len(),
        |i: int|
            if is_accepted(reqs[i]) {
                reqs[i].amount as int
            } else {
                0int
            },
    )
}

/// The record that an accepted request stores at time `time`.
pub open spec fn record_for(r: BudgetRequest, time: u64) -> BudgetRecord {
    BudgetRecord { user: r.user, amount: r.amount, last_updated: time }
}

/// The budgets once the first `k` requests are processed: each accepted
/// request replaces what was stored for its user.
pub open spec fn budgets_after(
    before: Map<Address, BudgetRecord>,
    time: u64,
    reqs: Seq<BudgetRequest>,
    k: int,
) -> Map<Address, BudgetRecord>
    decreases k,
{
    if k <= 0 {
        before
    } else if is_accepted(reqs[k - 1]) {
        budgets_after(before, time, reqs, k - 1).insert(
            reqs[k - 1].user,
            record_for(reqs[k - 1], time),
        )
    } else {
        budgets_after(before, time, reqs, k - 1)
    }
}

/// The event that reports request `i`.
pub open spec fn item_event(r: BudgetRequest) -> BudgetEvent {
    if is_accepted(r) {
        BudgetEvent::BudgetSet { user: r.user, amount: r.amount }
    } else {
        BudgetEvent::BudgetFailed { user: r.user, amount: r.amount }
    }
}

/// The events of the first `k` requests, in order.
pub open spec fn item_events(reqs: Seq<BudgetRequest>, k: int) -> Seq<BudgetEvent> {
    Seq::new(k as nat, |i: int| item_event(reqs[i]))
}

/// The error that voids a call by `caller` on `n` requests, if there is one.
/// The administrator is checked before the size of the batch.
pub open spec fn batch_error(admin: Option<Address>, caller: Address, n: int) -> Option<
    BudgetAllocationError,
> {
    if admin is None {
        Some(BudgetAllocationError::NotInitialized)
    } else if admin != Some(caller) {
        Some(BudgetAllocationError::Unauthorized)
    } else if n == 0 {
        Some(BudgetAllocationError::EmptyBatch)
    } else if n > MAX_BATCH_SIZE {
        Some(BudgetAllocationError::BatchTooLarge)
    } else {
        None
    }
}

/// The ledger state of the budget allocation contract: its administrator,
/// the budget stored for each user, and its event trail.
pub struct BudgetAllocationContract {
    pub admin: Option<Address>,
    pub budgets: EntityStore<BudgetRecord>,
    pub events: Vec<BudgetEvent>,
}

impl BudgetAllocationContract {
    /// Whether `post` is `pre` after a batch on `reqs` at time `time` that
    /// returned `result`.
    pub open spec fn committed(
        pre: Self,
        post: Self,
        time: u64,
        reqs: Seq<BudgetRequest>,
        result: BatchBudgetResult,
    ) -> bool {
        let n = reqs.len() as int;
        let accepted = count_true(accepted_flags(reqs), n);
        &&& result.successful == accepted
        &&& result.failed == n - accepted
        &&& result.total_amount == saturating_total(allocated_amounts(reqs), n)
        &&& post.admin == pre.admin
        &&& post.budgets@ == budgets_after(pre.budgets@, time, reqs, n)
        &&& post.events@ == pre.events@ + item_events(reqs, n)
    }

    /// The state of a contract that was just deployed: no administrator, no
    /// budgets, no events.
    pub fn new() -> (c: Self)
        ensures
            c.admin is None,
            c.budgets@ == Map::<Address, BudgetRecord>::empty(),
            c.events@ == Seq::<BudgetEvent>::empty(),
    {
        BudgetAllocationContract { admin: None, budgets: EntityStore::new(), events: Vec::new() }
    }

    /// Initializes the contract with its administrator. A contract that has
    /// an administrator is left as it is.
    pub fn initialize(&mut self, admin: Address) -> (r: Result<(), AlreadyInitialized>)
        ensures
            old(self).admin is Some ==> r is Err && *final(self) == *old(self),
            old(self).admin is None ==> r is Ok,
            old(self).admin is None ==> final(self).admin == Some(admin),
            old(self).admin is None ==> final(self).budgets == old(self).budgets,
            old(self).admin is None ==> final(self).events == old(self).events,
    {
        if self.admin.is_some() {
            return Err(AlreadyInitialized);
        }
        self.admin = Some(admin);
        Ok(())
    }

    /// Assigns monthly budgets to a batch of users at time `current_time`.
    ///
    /// The call is refused, and the contract left as it was, where the
    /// contract has no administrator, `admin` is not the administrator, the
    /// batch is empty, or it holds more than `MAX_BATCH_SIZE` requests.
    /// Otherwise each request with an amount that is not negative replaces
    /// the budget of its user, and each other request is counted as failed.
    pub fn batch_allocate_budget(
        &mut self,
        admin: Address,
        current_time: u64,
        requests: &Vec<BudgetRequest>,
    ) -> (r: Result<BatchBudgetResult, BudgetAllocationError>)
        ensures
            match r {
                Ok(result) => {
                    &&& batch_error(old(self).admin, admin, requests@.len() as int) is None
                    &&& Self::committed(
                        *old(self),
                        *final(self),
                        current_time,
                        requests@,
                        result,
                    )
                    &&& result.successful + result.failed == requests@.len()
                },
                Err(e) => batch_error(old(self).admin, admin, requests@.len() as int) == Some(e)
                    && *final(self) == *old(self),
            },
    {
        let count = requests.len();
        match self.check_preconditions(&admin, count) {
            Err(e) => {
                return Err(e);
            },
            Ok(_) => {},
        }
        let ghost pre_events = self.events@;
        let ghost pre_budgets = self.budgets@;
        let ghost reqs = requests@;

        let mut successful: u32 = 0;
        let mut failed: u32 = 0;
        let mut total_amount: i128 = 0;

        let mut i: usize = 0;
        while i < count
            invariant
                i <= count,
                0 < count <= MAX_BATCH_SIZE,
                count == requests.len(),
                reqs == requests@,
                successful == count_true(accepted_flags(reqs), i as int),
                failed == i - successful,
                successful <= i,
                total_amount == saturating_total(allocated_amounts(reqs), i as int),
                self.budgets@ == budgets_after(pre_budgets, current_time, reqs, i as int),
                self.events@ == pre_events + item_events(reqs, i as int),
                self.admin == old(self).admin,
            decreases count - i,
        {
            let req = &requests[i];
            // Validate input amount
            if req.amount < 0 {
                failed += 1;
                self.events.push(BudgetEvent::BudgetFailed { user: req.user, amount: req.amount });
            } else {
                // Overwrite what is stored for the user
                let record = BudgetRecord {
                    user: req.user,
                    amount: req.amount,
                    last_updated: current_time,
                };
                self.budgets.set(req.user, record);
                self.events.push(BudgetEvent::BudgetSet { user: req.user, amount: req.amount });
                successful += 1;
                total_amount = accumulate(total_amount, req.amount);
            }
            proof {
                assert(self.events@ =~= pre_events + item_events(reqs, i + 1));
            }
            i += 1;
        }

        Ok(BatchBudgetResult { successful, failed, total_amount })
    }

    /// The budget stored for `user`, if there is one.
    pub fn get_budget(&self, user: Address) -> (b: Option<BudgetRecord>)
        ensures
            match b {
                Some(record) => self.budgets@.contains_key(user) && record == self.budgets@[user],
                None => !self.budgets@.contains_key(user),
            },
    {
        match self.budgets.get(&user) {
            Some(record) => Some(*record),
            None => None,
        }
    }

    /// Hands the administration over to `new_admin`. Only the administrator
    /// can do so.
    pub fn set_admin(&mut self, current_admin: Address, new_admin: Address) -> (r: Result<
        (),
        BudgetAllocationError,
    >)
        ensures
            match r {
                Ok(_) => {
                    &&& old(self).admin == Some(current_admin)
                    &&& *final(self) == (BudgetAllocationContract {
                        admin: Some(new_admin),
                        ..*old(self)
                    })
                },
                Err(e) => {
                    &&& *final(self) == *old(self)
                    &&& old(self).admin is None ==> e == BudgetAllocationError::NotInitialized
                    &&& old(self).admin is Some ==> e == BudgetAllocationError::Unauthorized
                        && old(self).admin != Some(current_admin)
                },
            },
    {
        match self.require_admin(&current_admin) {
            Err(e) => {
                return Err(e);
            },
            Ok(_) => {},
        }
        self.admin = Some(new_admin);
        Ok(())
    }

    /// Checks what is asked of a call before any item is touched: that the
    /// contract has an administrator, that `caller` is the administrator,
    /// and that the batch holds at least one item and no more than
    /// `MAX_BATCH_SIZE`.
    pub fn check_preconditions(&self, caller: &Address, count: usize) -> (r: Result<
        (),
        BudgetAllocationError,
    >)
        ensures
            r == match batch_error(self.admin, *caller, count as int) {
                Some(e) => Err::<(), BudgetAllocationError>(e),
                None => Ok::<(), BudgetAllocationError>(()),
            },
    {
        match self.require_admin(caller) {
            Err(e) => {
                return Err(e);
            },
            Ok(_) => {},
        }
        if count == 0 {
            return Err(BudgetAllocationError::EmptyBatch);
        }
        if count > MAX_BATCH_SIZE as usize {
            return Err(BudgetAllocationError::BatchTooLarge);
        }
        Ok(())
    }

    /// Checks that `caller` is the administrator.
    fn require_admin(&self, caller: &Address) -> (r: Result<(), BudgetAllocationError>)
        ensures
            match self.admin {
                None => r == Err::<(), BudgetAllocationError>(
                    BudgetAllocationError::NotInitialized,
                ),
                Some(admin) => if admin == *caller {
                    r == Ok::<(), BudgetAllocationError>(())
                } else {
                    r == Err::<(), BudgetAllocationError>(BudgetAllocationError::Unauthorized)
                },
            },
    {
        match self.admin {
            None => Err(BudgetAllocationError::NotInitialized),
            Some(admin) => {
                if *caller != admin {
                    Err(BudgetAllocationError::Unauthorized)
                } else {
                    Ok(())
                }
            },
        }
    }

    /// The administrator.
    pub fn get_admin(&self) -> (r: Result<Address, BudgetAllocationError>)
        ensures
            match self.admin {
                Some(admin) => r == Ok::<Address, BudgetAllocationError>(admin),
                None => r == Err::<Address, BudgetAllocationError>(
                    BudgetAllocationError::NotInitialized,
                ),
            },
    {
        match self.admin {
            Some(admin) => Ok(admin),
            None => Err(BudgetAllocationError::NotInitialized),
        }
    }
}

/// The last write wins: after a batch, the budget of a user is what the last
/// accepted request for that user asked for.
pub proof fn lemma_last_accepted_request_wins(
    before: Map<Address, BudgetRecord>,
    time: u64,
    reqs: Seq<BudgetRequest>,
    i: int,
)
    requires
        0 <= i < reqs.len(),
        is_accepted(reqs[i]),
        forall|j: int|
            i < j < reqs.len() && is_accepted(#[trigger] reqs[j]) ==> reqs[j].user != reqs[i].user,
    ensures
        budgets_after(before, time, reqs, reqs.len() as int).contains_key(reqs[i].user),
        budgets_after(before, time, reqs, reqs.len() as int)[reqs[i].user] == record_for(
            reqs[i],
            time,
        ),
{
    lemma_budget_settled(before, time, reqs, i, reqs.len() as int);
}

/// The budget that request `i` sets stands after `k` requests, where no
/// accepted request between the two is for the same user.
proof fn lemma_budget_settled(
    before: Map<Address, BudgetRecord>,
    time: u64,
    reqs: Seq<BudgetRequest>,
    i: int,
    k: int,
)
    requires
        0 <= i < k <= reqs.len(),
        is_accepted(reqs[i]),
        forall|j: int| i < j < k && is_accepted(#[trigger] reqs[j]) ==> reqs[j].user != reqs[i].user,
    ensures
        budgets_after(before, time, reqs, k).contains_key(reqs[i].user),
        budgets_after(before, time, reqs, k)[reqs[i].user] == record_for(reqs[i], time),
    decreases k,
{
    if k > i + 1 {
        lemma_budget_settled(before, time, reqs, i, k - 1);
    }
}

/// A user for whom a batch accepts no request keeps the budget stored
/// before, or keeps having none.
pub proof fn lemma_untouched_budget_stays(
    before: Map<Address, BudgetRecord>,
    time: u64,
    reqs: Seq<BudgetRequest>,
    user: Address,
    k: int,
)
    requires
        0 <= k <= reqs.len(),
        forall|j: int| 0 <= j < k && is_accepted(#[trigger] reqs[j]) ==> reqs[j].user != user,
    ensures
        budgets_after(before, time, reqs, k).contains_key(user) == before.contains_key(user),
        before.contains_key(user) ==> budgets_after(before, time, reqs, k)[user] == before[user],
    decreases k,
{
    if k > 0 {
        lemma_untouched_budget_stays(before, time, reqs, user, k - 1);
    }
}

} // verus!
