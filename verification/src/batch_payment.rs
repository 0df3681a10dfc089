//! Batch payments of one token from one sender.
//!
//! Unlike the other processors this one is all or nothing: one payment with
//! an amount that is not positive voids the whole batch.

use vstd::prelude::*;
use crate::address::Address;
use crate::tally::{accumulate, saturating_total};
use crate::batch_payment::types::{Payment, PaymentEvent};

pub mod types;

verus! {

/// The largest number of payments in one batch.
pub const MAX_BATCH_SIZE: u32 = 100;

/// The errors that void a whole call.
#[derive(Copy, Clone, Debug, Eq, PartialEq, Structural)]
pub enum BatchPaymentError {
    /// Batch is empty
    EmptyBatch,
    /// Batch exceeds maximum size
    BatchTooLarge,
    /// A payment's amount is not positive
    InvalidAmount,
}

/// Whether every payment has a positive amount.
pub open spec fn all_positive(payments: Seq<Payment>) -> bool {
    forall|i: int| 0 <= i < payments.len() ==> (#[trigger] payments[i]).amount > 0
}

/// The amounts of the payments, in order.
pub open spec fn amounts(payments: Seq<Payment>) -> Seq<int> {
    Seq::new(payments.len(), |i: int| payments[i].amount as int)
}

/// The events of the first `k` payments, in order.
pub open spec fn item_events(batch_id: u64, token: Address, payments: Seq<Payment>, k: int) -> Seq<
    PaymentEvent,
> {
    Seq::new(
        k as nat,
        |i: int|
            PaymentEvent::Payment {
                batch_id,
                recipient: payments[i].recipient,
                token,
                amount: payments[i].amount,
            },
    )
}

/// The events of a whole batch: one per payment, then its end with the
/// number of payments and their total, held at the bound of `i128`.
pub open spec fn batch_events(batch_id: u64, token: Address, payments: Seq<Payment>) -> Seq<
    PaymentEvent,
> {
    item_events(batch_id, token, payments, payments.len() as int).push(
        PaymentEvent::BatchComplete {
            batch_id,
            total_payments: payments.len() as u32,
            total_amount: saturating_total(amounts(payments), payments.len() as int) as i128,
        },
    )
}

/// The error that voids a call on `payments`, if there is one. The size of
/// the batch is checked before its amounts.
pub open spec fn batch_error(payments: Seq<Payment>) -> Option<BatchPaymentError> {
    if payments.len() == 0 {
        Some(BatchPaymentError::EmptyBatch)
    } else if payments.len() > MAX_BATCH_SIZE {
        Some(BatchPaymentError::BatchTooLarge)
    } else if !all_positive(payments) {
        Some(BatchPaymentError::InvalidAmount)
    } else {
        None
    }
}

/// The ledger state of the payment contract: its event trail.
pub struct BatchPaymentContract {
    pub events: Vec<PaymentEvent>,
}

impl BatchPaymentContract {
    /// The state of a contract that was just deployed: no events.
    pub fn new() -> (c: Self)
        ensures
            c.events@ == Seq::<PaymentEvent>::empty(),
    {
        BatchPaymentContract { events: Vec::new() }
    }

    /// Pays `token` to a batch of recipients in ledger `ledger_sequence`,
    /// which gives the batch its id.
    ///
    /// The call is refused, and the trail left as it was, where the batch is
    /// empty, holds more than `MAX_BATCH_SIZE` payments, or holds a payment
    /// whose amount is not positive. Otherwise the trail gets one event per
    /// payment, in input order, and one for the end of the batch.
    pub fn batch_transfer(
        &mut self,
        token: Address,
        ledger_sequence: u32,
        payments: &Vec<Payment>,
    ) -> (r: Result<(), BatchPaymentError>)
        ensures
            match r {
                Ok(_) => {
                    &&& batch_error(payments@) is None
                    &&& final(self).events@ == old(self).events@ + batch_events(
                        ledger_sequence as u64,
                        token,
                        payments@,
                    )
                },
                Err(e) => batch_error(payments@) == Some(e) && *final(self) == *old(self),
            },
    {
        let count = payments.len();
        if count == 0 {
            return Err(BatchPaymentError::EmptyBatch);
        }
        if count > MAX_BATCH_SIZE as usize {
            return Err(BatchPaymentError::BatchTooLarge);
        }
        // Validation
        let mut i: usize = 0;
        while i < count
            invariant
                i <= count,
                0 < count <= MAX_BATCH_SIZE,
                count == payments.len(),
                *self == *old(self),
                forall|j: int| 0 <= j < i ==> (#[trigger] payments@[j]).amount > 0,
            decreases count - i,
        {
            if payments[i].amount <= 0 {
                assert(!all_positive(payments@)) by {
                    assert(payments@[i as int].amount <= 0);
                }
                return Err(BatchPaymentError::InvalidAmount);
            }
            i += 1;
        }

        let batch_id: u64 = ledger_sequence as u64;
        let ghost pre_events = self.events@;
        let mut total_amount: i128 = 0;
        let mut paid: u32 = 0;
        let mut i: usize = 0;
        while i < count
            invariant
                i <= count,
                count <= MAX_BATCH_SIZE,
                count == payments.len(),
                paid == i,
                total_amount == saturating_total(amounts(payments@), i as int),
                self.events@ == pre_events + item_events(batch_id, token, payments@, i as int),
            decreases count - i,
        {
            let payment = &payments[i];
            total_amount = accumulate(total_amount, payment.amount);
            paid += 1;
            self.events.push(
                PaymentEvent::Payment {
                    batch_id,
                    recipient: payment.recipient,
                    token,
                    amount: payment.amount,
                },
            );
            proof {
                assert(self.events@ =~= pre_events + item_events(
                    batch_id,
                    token,
                    payments@,
                    i + 1,
                ));
            }
            i += 1;
        }

        self.events.push(
            PaymentEvent::BatchComplete { batch_id, total_payments: paid, total_amount },
        );
        proof {
            assert(self.events@ =~= pre_events + batch_events(batch_id, token, payments@));
        }
        Ok(())
    }
}

} // verus!
