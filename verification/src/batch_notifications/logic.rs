//! Dispatch of a batch of notifications.

use vstd::prelude::*;
use crate::address::Address;
use crate::batch_notifications::types::{BatchResult, NotificationEvent, NotificationPayload};
use crate::tally::count_true;

verus! {

/// Whether a payload is delivered: its message is not empty.
pub open spec fn is_delivered(p: NotificationPayload) -> bool {
    p.message@.len() > 0
}

/// For each payload, whether it is delivered.
pub open spec fn delivered_flags(payloads: Seq<NotificationPayload>) -> Seq<bool> {
    Seq::new(payloads.len(), |i: int| is_delivered(payloads[i]))
}

/// The users of the payloads among the first `k` that are not delivered, in
/// order.
pub open spec fn failed_users(payloads: Seq<NotificationPayload>, k: int) -> Seq<Address>
    decreases k,
{
    if k <= 0 {
        Seq::empty()
    } else if is_delivered(payloads[k - 1]) {
        failed_users(payloads, k - 1)
    } else {
        failed_users(payloads, k - 1).push(payloads[k - 1].user)
    }
}

/// The events of the first `k` payloads: one for each that is delivered, in
/// order.
pub open spec fn delivery_events(payloads: Seq<NotificationPayload>, k: int) -> Seq<
    NotificationEvent,
>
    decreases k,
{
    if k <= 0 {
        Seq::empty()
    } else if is_delivered(payloads[k - 1]) {
        delivery_events(payloads, k - 1).push(
            NotificationEvent { user: payloads[k - 1].user, message: payloads[k - 1].message },
        )
    } else {
        delivery_events(payloads, k - 1)
    }
}

/// Delivers every payload whose message is not empty, and records the users
/// of the others. An empty message is a failure of its item, never of the
/// batch.
pub fn execute_dispatch(
    trail: &mut Vec<NotificationEvent>,
    payloads: &Vec<NotificationPayload>,
) -> (result: BatchResult)
    requires
        payloads@.len() <= u32::MAX,
    ensures
        result.successful_count == count_true(
            delivered_flags(payloads@),
            payloads@.len() as int,
        ),
        result.failed_addresses@ == failed_users(payloads@, payloads@.len() as int),
        result.successful_count + result.failed_addresses@.len() == payloads@.len(),
        final(trail)@ == old(trail)@ + delivery_events(payloads@, payloads@.len() as int),
{
    let mut success_count: u32 = 0;
    let mut failures: Vec<Address> = Vec::new();
    let ghost pre_trail = trail@;

    let mut i: usize = 0;
    while i < payloads.len()
        invariant
            i <= payloads.len(),
            payloads@.len() <= u32::MAX,
            success_count == count_true(delivered_flags(payloads@), i as int),
            failures@ == failed_users(payloads@, i as int),
            success_count + failures@.len() == i,
            trail@ == pre_trail + delivery_events(payloads@, i as int),
        decreases payloads.len() - i,
    {
        let payload = &payloads[i];
        if !payload.message.as_str().is_empty() {
            trail.push(NotificationEvent { user: payload.user, message: payload.message.clone() });
            success_count += 1;
        } else {
            // If it fails, add the user to the failure list
            failures.push(payload.user);
        }
        proof {
            assert(trail@ =~= pre_trail + delivery_events(payloads@, i + 1));
        }
        i += 1;
    }

    BatchResult { successful_count: success_count, failed_addresses: failures }
}

} // verus!
