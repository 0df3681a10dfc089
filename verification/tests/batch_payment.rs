use batch_ledger::address::Address;
use batch_ledger::batch_payment::types::{Payment, PaymentEvent};
use batch_ledger::batch_payment::{BatchPaymentContract, BatchPaymentError};

#[test]
fn test_batch_transfer() {
    let mut client = BatchPaymentContract::new();
    let token = Address::contract(0, 1);

    let user1 = Address::account(0, 1);
    let user2 = Address::account(0, 2);

    // Prepare payments
    let mut payments = Vec::new();
    payments.push(Payment { recipient: user1.clone(), amount: 100 });
    payments.push(Payment { recipient: user2.clone(), amount: 200 });

    // Execute batch transfer
    assert_eq!(client.batch_transfer(token, 7, &payments), Ok(()));

    // One payment of 100 and one of 200 are to be made, 300 in all
    assert_eq!(
        client.events,
        vec![
            PaymentEvent::Payment { batch_id: 7, recipient: user1, token, amount: 100 },
            PaymentEvent::Payment { batch_id: 7, recipient: user2, token, amount: 200 },
            PaymentEvent::BatchComplete { batch_id: 7, total_payments: 2, total_amount: 300 },
        ]
    );
}

#[test]
fn test_batch_transfer_zero_amount() {
    let mut client = BatchPaymentContract::new();
    let token = Address::contract(0, 1);
    let user1 = Address::account(0, 1);

    let mut payments = Vec::new();
    payments.push(Payment { recipient: user1, amount: 0 });

    assert_eq!(client.batch_transfer(token, 0, &payments), Err(BatchPaymentError::InvalidAmount));
    assert!(client.events.is_empty());
}

#[test]
fn test_batch_payment_is_all_or_nothing() {
    let mut client = BatchPaymentContract::new();
    let token = Address::contract(0, 1);
    let mut payments = Vec::new();
    payments.push(Payment { recipient: Address::account(0, 1), amount: 5 });
    payments.push(Payment { recipient: Address::account(0, 2), amount: -5 });
    payments.push(Payment { recipient: Address::account(0, 3), amount: 5 });
    assert_eq!(client.batch_transfer(token, 0, &payments), Err(BatchPaymentError::InvalidAmount));
    assert!(client.events.is_empty());
}

#[test]
fn test_batch_payment_size_limits() {
    let mut client = BatchPaymentContract::new();
    let token = Address::contract(0, 1);
    let mut payments: Vec<Payment> = Vec::new();
    assert_eq!(client.batch_transfer(token, 0, &payments), Err(BatchPaymentError::EmptyBatch));
    for i in 0..101 {
        payments.push(Payment { recipient: Address::account(0, i), amount: 0 });
    }
    // The size of the batch is checked before its amounts
    assert_eq!(client.batch_transfer(token, 0, &payments), Err(BatchPaymentError::BatchTooLarge));
    assert!(client.events.is_empty());
}

#[test]
fn test_batch_payment_total_saturates() {
    let mut client = BatchPaymentContract::new();
    let token = Address::contract(0, 1);
    let mut payments = Vec::new();
    payments.push(Payment { recipient: Address::account(0, 1), amount: i128::MAX });
    payments.push(Payment { recipient: Address::account(0, 2), amount: 1 });
    assert_eq!(client.batch_transfer(token, u32::MAX, &payments), Ok(()));
    assert_eq!(
        client.events[2],
        PaymentEvent::BatchComplete {
            batch_id: 4294967295,
            total_payments: 2,
            total_amount: i128::MAX,
        }
    );
}
