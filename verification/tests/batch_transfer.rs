use batch_ledger::address::Address;
use batch_ledger::batch_transfer::types::{
    BatchTransferResult, TransferEvent, TransferEvents, TransferRequest, TransferResult,
};
use batch_ledger::batch_transfer::validation;
use batch_ledger::batch_transfer::{validate_request, BatchTransferContract, BatchTransferError};
use batch_ledger::tally::AlreadyInitialized;

/// The balance that the administrator holds in every test.
const BALANCE: i128 = 1_000_000_000_000;

/// A contract that was deployed and initialized, with its administrator.
fn setup_test_env() -> (Address, BatchTransferContract) {
    let mut client = BatchTransferContract::new();
    let admin = Address::account(0, 1000);
    assert_eq!(client.initialize(admin), Ok(()));
    (admin, client)
}

fn generate(n: u128) -> Address {
    Address::account(7, n)
}

fn create_transfer_request(recipient: Address, amount: i128) -> TransferRequest {
    TransferRequest { recipient, amount }
}

fn transfer(
    client: &mut BatchTransferContract,
    caller: Address,
    transfers: &Vec<TransferRequest>,
) -> BatchTransferResult {
    assert!(client.can_accept_batch());
    client.batch_transfer(caller, BALANCE, transfers).unwrap()
}

// Initialization Tests

#[test]
fn test_initialize_contract() {
    let (admin, client) = setup_test_env();

    assert_eq!(client.get_admin(), Ok(admin));
    assert_eq!(client.get_total_batches(), 0);
    assert_eq!(client.get_total_transfers_processed(), 0);
    assert_eq!(client.get_total_volume_transferred(), 0);
}

#[test]
fn test_cannot_initialize_twice() {
    let (admin, mut client) = setup_test_env();

    let new_admin = generate(1);
    assert_eq!(client.initialize(new_admin), Err(AlreadyInitialized));
    assert_eq!(client.get_admin(), Ok(admin));
}

#[test]
fn test_transfer_get_admin_not_initialized() {
    let client = BatchTransferContract::new();
    assert_eq!(client.get_admin(), Err(BatchTransferError::NotInitialized));
}

// Batch Transfer Tests

#[test]
fn test_batch_transfer_single_recipient() {
    let (admin, mut client) = setup_test_env();

    let recipient = generate(1);
    let amount: i128 = 10_000_000; // 1 XLM

    let mut transfers: Vec<TransferRequest> = Vec::new();
    transfers.push(create_transfer_request(recipient, amount));

    let result = transfer(&mut client, admin, &transfers);

    assert_eq!(result.total_requests, 1);
    assert_eq!(result.successful, 1);
    assert_eq!(result.failed, 0);
    assert_eq!(result.total_transferred, amount);
    assert_eq!(result.results.len(), 1);
}

#[test]
fn test_batch_transfer_multiple_recipients() {
    let (admin, mut client) = setup_test_env();

    let recipient1 = generate(1);
    let recipient2 = generate(2);
    let recipient3 = generate(3);

    let amount1: i128 = 10_000_000; // 1 XLM
    let amount2: i128 = 20_000_000; // 2 XLM
    let amount3: i128 = 30_000_000; // 3 XLM

    let mut transfers: Vec<TransferRequest> = Vec::new();
    transfers.push(create_transfer_request(recipient1, amount1));
    transfers.push(create_transfer_request(recipient2, amount2));
    transfers.push(create_transfer_request(recipient3, amount3));

    let result = transfer(&mut client, admin, &transfers);

    assert_eq!(result.total_requests, 3);
    assert_eq!(result.successful, 3);
    assert_eq!(result.failed, 0);
    assert_eq!(result.total_transferred, amount1 + amount2 + amount3);
}

#[test]
fn test_batch_transfer_with_invalid_amount() {
    let (admin, mut client) = setup_test_env();

    let recipient1 = generate(1);
    let recipient2 = generate(2);

    let mut transfers: Vec<TransferRequest> = Vec::new();
    transfers.push(create_transfer_request(recipient1, -100)); // Invalid: negative
    transfers.push(create_transfer_request(recipient2, 10_000_000)); // Valid

    let result = transfer(&mut client, admin, &transfers);

    assert_eq!(result.total_requests, 2);
    assert_eq!(result.successful, 1);
    assert_eq!(result.failed, 1);
    assert_eq!(result.total_transferred, 10_000_000);

    // Check that first result is failure
    match result.results.get(0).unwrap() {
        TransferResult::Failure(recv, req_amount, error_code) => {
            assert_eq!(recv.clone(), recipient1);
            assert_eq!(req_amount.clone(), -100);
            assert_eq!(error_code.clone(), 1); // Invalid amount
        }
        _ => panic!("Expected failure for invalid amount"),
    }

    // Check that second result is success
    match result.results.get(1).unwrap() {
        TransferResult::Success(recv, amount) => {
            assert_eq!(recv.clone(), recipient2);
            assert_eq!(amount.clone(), 10_000_000);
        }
        _ => panic!("Expected success for valid transfer"),
    }
}

#[test]
fn test_batch_transfer_with_insufficient_balance() {
    let (admin, mut client) = setup_test_env();

    let recipient1 = generate(1);
    let recipient2 = generate(2);

    let amount1: i128 = 10_000_000; // 1 XLM
    let amount2: i128 = 1_000_000_000_001; // More than available

    let mut transfers: Vec<TransferRequest> = Vec::new();
    transfers.push(create_transfer_request(recipient1, amount1));
    transfers.push(create_transfer_request(recipient2, amount2));

    let result = transfer(&mut client, admin, &transfers);

    assert_eq!(result.total_requests, 2);
    assert_eq!(result.successful, 1);
    assert_eq!(result.failed, 1);
    assert_eq!(result.total_transferred, amount1);
    assert_eq!(result.results[1], TransferResult::Failure(recipient2, amount2, 2));
}

#[test]
fn test_batch_transfer_partial_failures() {
    let (admin, mut client) = setup_test_env();

    let recipient1 = generate(1);
    let recipient2 = generate(2);
    let recipient3 = generate(3);
    let recipient4 = generate(4);

    let mut transfers: Vec<TransferRequest> = Vec::new();
    transfers.push(create_transfer_request(recipient1, 10_000_000)); // Valid
    transfers.push(create_transfer_request(recipient2, 0)); // Invalid: zero
    transfers.push(create_transfer_request(recipient3, 20_000_000)); // Valid
    transfers.push(create_transfer_request(recipient4, -100)); // Invalid: negative

    let result = transfer(&mut client, admin, &transfers);

    assert_eq!(result.total_requests, 4);
    assert_eq!(result.successful, 2);
    assert_eq!(result.failed, 2);
    assert_eq!(result.total_transferred, 30_000_000);
    assert_eq!(
        result.results,
        vec![
            TransferResult::Success(recipient1, 10_000_000),
            TransferResult::Failure(recipient2, 0, 1),
            TransferResult::Success(recipient3, 20_000_000),
            TransferResult::Failure(recipient4, -100, 1),
        ]
    );
}

#[test]
fn test_batch_transfer_events_emitted() {
    let (admin, mut client) = setup_test_env();

    let recipient1 = generate(1);
    let recipient2 = generate(2);

    let mut transfers: Vec<TransferRequest> = Vec::new();
    transfers.push(create_transfer_request(recipient1, 10_000_000));
    transfers.push(create_transfer_request(recipient2, -100)); // Invalid

    transfer(&mut client, admin, &transfers);

    let events = client.events.clone();
    // Should have: batch_started, transfer_success (1), transfer_failure (1), batch_completed
    assert!(events.len() >= 4);
    assert_eq!(
        events,
        vec![
            TransferEvent::BatchStarted { batch_id: 1, request_count: 2 },
            TransferEvent::TransferSuccess {
                batch_id: 1,
                recipient: recipient1,
                amount: 10_000_000,
            },
            TransferEvent::TransferFailure {
                batch_id: 1,
                recipient: recipient2,
                requested_amount: -100,
                error_code: 1,
            },
            TransferEvent::BatchCompleted {
                batch_id: 1,
                successful: 1,
                failed: 1,
                total_transferred: 10_000_000,
            },
        ]
    );
}

#[test]
fn test_batch_transfer_accumulates_stats() {
    let (admin, mut client) = setup_test_env();

    let recipient1 = generate(1);
    let recipient2 = generate(2);

    let mut transfers1: Vec<TransferRequest> = Vec::new();
    transfers1.push(create_transfer_request(recipient1, 10_000_000));

    let mut transfers2: Vec<TransferRequest> = Vec::new();
    transfers2.push(create_transfer_request(recipient2, 20_000_000));

    assert_eq!(client.get_total_batches(), 0);
    assert_eq!(client.get_total_transfers_processed(), 0);
    assert_eq!(client.get_total_volume_transferred(), 0);

    transfer(&mut client, admin, &transfers1);
    assert_eq!(client.get_total_batches(), 1);
    assert_eq!(client.get_total_transfers_processed(), 1);
    assert_eq!(client.get_total_volume_transferred(), 10_000_000);

    transfer(&mut client, admin, &transfers2);
    assert_eq!(client.get_total_batches(), 2);
    assert_eq!(client.get_total_transfers_processed(), 2);
    assert_eq!(client.get_total_volume_transferred(), 30_000_000);
}

#[test]
fn test_batch_transfer_empty_batch() {
    let (admin, mut client) = setup_test_env();

    let transfers: Vec<TransferRequest> = Vec::new();
    let result = client.batch_transfer(admin, BALANCE, &transfers);
    assert_eq!(result, Err(BatchTransferError::EmptyBatch));
    assert_eq!(client.get_total_batches(), 0);
    assert_eq!(client.get_total_transfers_processed(), 0);
    assert_eq!(client.get_total_volume_transferred(), 0);
    assert!(client.events.is_empty());
}

#[test]
fn test_batch_transfer_batch_too_large() {
    let (admin, mut client) = setup_test_env();

    let mut transfers: Vec<TransferRequest> = Vec::new();
    for i in 0..101 {
        transfers.push(create_transfer_request(generate(i), 1));
    }
    let result = client.batch_transfer(admin, BALANCE, &transfers);
    assert_eq!(result, Err(BatchTransferError::BatchTooLarge));
    assert_eq!(client.get_total_batches(), 0);
    assert_eq!(client.get_total_transfers_processed(), 0);
    assert!(client.events.is_empty());

    transfers.pop();
    let result = transfer(&mut client, admin, &transfers);
    assert_eq!(result.total_requests, 100);
    assert_eq!(result.successful, 100);
}

#[test]
fn test_batch_transfer_unauthorized() {
    let (_admin, mut client) = setup_test_env();

    let unauthorized = generate(50);
    let recipient = generate(1);

    let mut transfers: Vec<TransferRequest> = Vec::new();
    transfers.push(create_transfer_request(recipient, 10_000_000));

    let result = client.batch_transfer(unauthorized, BALANCE, &transfers);
    assert_eq!(result, Err(BatchTransferError::Unauthorized));
    assert_eq!(client.get_total_batches(), 0);
    assert!(client.events.is_empty());
}

#[test]
fn test_batch_transfer_not_initialized() {
    let mut client = BatchTransferContract::new();
    let mut transfers: Vec<TransferRequest> = Vec::new();
    transfers.push(create_transfer_request(generate(1), 10_000_000));
    let result = client.batch_transfer(generate(2), BALANCE, &transfers);
    assert_eq!(result, Err(BatchTransferError::NotInitialized));
    assert!(client.events.is_empty());
}

#[test]
fn test_batch_transfer_large_batch() {
    let (admin, mut client) = setup_test_env();

    // Create a batch with 50 recipients
    let mut transfers: Vec<TransferRequest> = Vec::new();
    let mut recipients: Vec<Address> = Vec::new();

    for i in 0..50 {
        let recipient = generate(i);
        recipients.push(recipient);
        transfers.push(create_transfer_request(recipient, 1_000_000));
        // 0.1 XLM each
    }

    let result = transfer(&mut client, admin, &transfers);

    assert_eq!(result.total_requests, 50);
    assert_eq!(result.successful, 50);
    assert_eq!(result.failed, 0);
    assert_eq!(result.total_transferred, 50_000_000); // 5 XLM total
    for i in 0..50 {
        assert_eq!(result.results[i], TransferResult::Success(recipients[i], 1_000_000));
    }
}

// Admin Tests

#[test]
fn test_set_admin() {
    let (admin, mut client) = setup_test_env();

    let new_admin = generate(1);
    assert_eq!(client.set_admin(admin, new_admin), Ok(()));

    assert_eq!(client.get_admin(), Ok(new_admin));
}

#[test]
fn test_transfer_set_admin_unauthorized() {
    let (admin, mut client) = setup_test_env();
    let other = generate(1);
    assert_eq!(client.set_admin(other, other), Err(BatchTransferError::Unauthorized));
    assert_eq!(client.get_admin(), Ok(admin));

    let mut fresh = BatchTransferContract::new();
    assert_eq!(fresh.set_admin(other, other), Err(BatchTransferError::NotInitialized));
}

// Multiple Simultaneous Batch Transfers (Integration Test)

#[test]
fn test_multiple_simultaneous_batch_transfers() {
    let (admin, mut client) = setup_test_env();

    // First batch: 3 recipients
    let recipient1 = generate(1);
    let recipient2 = generate(2);
    let recipient3 = generate(3);

    let mut batch1: Vec<TransferRequest> = Vec::new();
    batch1.push(create_transfer_request(recipient1, 10_000_000));
    batch1.push(create_transfer_request(recipient2, 20_000_000));
    batch1.push(create_transfer_request(recipient3, 30_000_000));

    let result1 = transfer(&mut client, admin, &batch1);
    assert_eq!(result1.successful, 3);
    assert_eq!(result1.total_transferred, 60_000_000);

    // Second batch: 2 recipients (including one that already received tokens)
    let recipient4 = generate(4);

    let mut batch2: Vec<TransferRequest> = Vec::new();
    batch2.push(create_transfer_request(recipient1, 5_000_000)); // Same recipient
    batch2.push(create_transfer_request(recipient4, 15_000_000));

    let result2 = transfer(&mut client, admin, &batch2);
    assert_eq!(result2.successful, 2);
    assert_eq!(result2.total_transferred, 20_000_000);

    // Verify contract stats
    assert_eq!(client.get_total_batches(), 2);
    assert_eq!(client.get_total_transfers_processed(), 5);
    assert_eq!(client.get_total_volume_transferred(), 80_000_000);
}

#[test]
fn test_batch_transfer_running_balance() {
    let (admin, mut client) = setup_test_env();
    let mut transfers: Vec<TransferRequest> = Vec::new();
    transfers.push(create_transfer_request(generate(1), 60));
    transfers.push(create_transfer_request(generate(2), 60)); // 40 left
    transfers.push(create_transfer_request(generate(3), 40));
    transfers.push(create_transfer_request(generate(4), 1)); // nothing left

    let result = client.batch_transfer(admin, 100, &transfers).unwrap();
    assert_eq!(
        result.results,
        vec![
            TransferResult::Success(generate(1), 60),
            TransferResult::Failure(generate(2), 60, 2),
            TransferResult::Success(generate(3), 40),
            TransferResult::Failure(generate(4), 1, 2),
        ]
    );
    assert_eq!(result.successful, 2);
    assert_eq!(result.failed, 2);
    assert_eq!(result.total_transferred, 100);
}

#[test]
fn test_batch_transfer_volume_saturates() {
    let (admin, mut client) = setup_test_env();
    let mut transfers: Vec<TransferRequest> = Vec::new();
    transfers.push(create_transfer_request(generate(1), i128::MAX));
    let result = client.batch_transfer(admin, i128::MAX, &transfers).unwrap();
    assert_eq!(result.total_transferred, i128::MAX);
    assert_eq!(client.get_total_volume_transferred(), i128::MAX);
    let result = client.batch_transfer(admin, i128::MAX, &transfers).unwrap();
    assert_eq!(result.total_transferred, i128::MAX);
    assert_eq!(client.get_total_volume_transferred(), i128::MAX);
    assert_eq!(client.get_total_batches(), 2);
}

#[test]
fn test_transfer_counters_without_room() {
    let (_admin, mut client) = setup_test_env();
    assert!(client.can_accept_batch());
    client.total_batches = u64::MAX;
    assert!(!client.can_accept_batch());
    client.total_batches = 5;
    client.total_transfers_processed = u64::MAX - 99;
    assert!(!client.can_accept_batch());
    client.total_transfers_processed = u64::MAX - 100;
    assert!(client.can_accept_batch());
}

#[test]
fn test_transfer_error_codes() {
    assert_eq!(BatchTransferError::NotInitialized.code(), 1);
    assert_eq!(BatchTransferError::Unauthorized.code(), 2);
    assert_eq!(BatchTransferError::InvalidBatch.code(), 3);
    assert_eq!(BatchTransferError::EmptyBatch.code(), 4);
    assert_eq!(BatchTransferError::BatchTooLarge.code(), 5);
    assert_eq!(BatchTransferError::InvalidToken.code(), 6);
}

#[test]
fn test_transfer_validation() {
    assert!(validation::validate_address(&generate(1)).is_ok());
    assert!(validation::validate_amount(1).is_ok());
    assert_eq!(validation::validate_amount(0), Err(validation::ValidationError::InvalidAmount));
    assert_eq!(validation::validate_amount(-5), Err(validation::ValidationError::InvalidAmount));
    let v = validate_request(&create_transfer_request(generate(1), 0));
    assert_eq!((v.valid, v.error_code), (false, 1));
    let v = validate_request(&create_transfer_request(generate(1), 1));
    assert_eq!((v.valid, v.error_code), (true, 0));
}

#[test]
fn test_transfer_events_append() {
    let mut trail = Vec::new();
    TransferEvents::batch_started(&mut trail, 3, 2);
    TransferEvents::transfer_success(&mut trail, 3, &generate(1), 10);
    TransferEvents::transfer_failure(&mut trail, 3, &generate(2), -1, 1);
    TransferEvents::batch_completed(&mut trail, 3, 1, 1, 10);
    assert_eq!(
        trail,
        vec![
            TransferEvent::BatchStarted { batch_id: 3, request_count: 2 },
            TransferEvent::TransferSuccess { batch_id: 3, recipient: generate(1), amount: 10 },
            TransferEvent::TransferFailure {
                batch_id: 3,
                recipient: generate(2),
                requested_amount: -1,
                error_code: 1,
            },
            TransferEvent::BatchCompleted {
                batch_id: 3,
                successful: 1,
                failed: 1,
                total_transferred: 10,
            },
        ]
    );
}
