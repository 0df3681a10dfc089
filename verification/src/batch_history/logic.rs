//! Retrieval of a batch of histories.

use vstd::prelude::*;
use crate::address::Address;
use crate::batch_history::types::{HistoryEvent, TransactionRecord, UserHistory};

verus! {

/// The events of a retrieval: one per user, in order.
pub open spec fn retrieval_events(users: Seq<Address>, k: int) -> Seq<HistoryEvent> {
    Seq::new(k as nat, |i: int| HistoryEvent { user: users[i] })
}

/// Retrieves the history of each user, in input order, and records each
/// retrieval. No transactions are kept on the ledger, so every history is
/// empty.
pub fn get_batch_history(trail: &mut Vec<HistoryEvent>, users: &Vec<Address>) -> (histories: Vec<
    UserHistory,
>)
    ensures
        histories@.len() == users@.len(),
        forall|i: int|
            0 <= i < users@.len() ==> (#[trigger] histories@[i]).user == users@[i]
                && histories@[i].transactions@.len() == 0,
        final(trail)@ == old(trail)@ + retrieval_events(users@, users@.len() as int),
{
    let mut batch_results: Vec<UserHistory> = Vec::new();
    let ghost pre_trail = trail@;

    let mut i: usize = 0;
    while i < users.len()
        invariant
            i <= users.len(),
            batch_results@.len() == i,
            forall|j: int|
                0 <= j < i ==> (#[trigger] batch_results@[j]).user == users@[j]
                    && batch_results@[j].transactions@.len() == 0,
            trail@ == pre_trail + retrieval_events(users@, i as int),
        decreases users.len() - i,
    {
        let user = users[i];
        trail.push(HistoryEvent { user });
        let transactions: Vec<TransactionRecord> = Vec::new();
        batch_results.push(UserHistory { user, transactions });
        proof {
            assert(trail@ =~= pre_trail + retrieval_events(users@, i + 1));
        }
        i += 1;
    }

    batch_results
}

} // verus!
