use batch_ledger::address::Address;
use batch_ledger::batch_wallet_creation::types::{
    BatchCreateResult, Wallet, WalletCreateRequest, WalletCreateResult, WalletEvent, WalletEvents,
};
use batch_ledger::batch_wallet_creation::{BatchWalletContract, BatchWalletError};
use batch_ledger::tally::AlreadyInitialized;

/// The ledger in which the tests run.
const LEDGER: u32 = 12345;

/// A contract that was deployed and initialized, with its administrator.
fn setup_test_env() -> (Address, BatchWalletContract) {
    let mut client = BatchWalletContract::new();
    let admin = Address::account(0, 1000);
    assert_eq!(client.initialize(admin), Ok(()));
    (admin, client)
}

fn generate(n: u128) -> Address {
    Address::account(5, n)
}

fn create_wallet_request(owner: Address) -> WalletCreateRequest {
    WalletCreateRequest { owner }
}

fn create_wallets(
    client: &mut BatchWalletContract,
    caller: Address,
    requests: &Vec<WalletCreateRequest>,
) -> BatchCreateResult {
    assert!(client.can_accept_batch());
    client.batch_create_wallets(caller, LEDGER, requests).unwrap()
}

// Initialization Tests

#[test]
fn test_test_initialize_contract() {
    let (admin, client) = setup_test_env();

    assert_eq!(client.get_admin(), Ok(admin));
    assert_eq!(client.get_total_batches(), 0);
    assert_eq!(client.get_total_wallets_created(), 0);
}

#[test]
fn test_test_cannot_initialize_twice() {
    let (admin, mut client) = setup_test_env();

    let new_admin = generate(1);
    assert_eq!(client.initialize(new_admin), Err(AlreadyInitialized));
    assert_eq!(client.get_admin(), Ok(admin));
}

// Batch Wallet Creation Tests

#[test]
fn test_batch_create_wallets_single() {
    let (admin, mut client) = setup_test_env();

    let owner = generate(1);

    let mut requests: Vec<WalletCreateRequest> = Vec::new();
    requests.push(create_wallet_request(owner));

    let result = create_wallets(&mut client, admin, &requests);

    assert_eq!(result.total_requests, 1);
    assert_eq!(result.successful, 1);
    assert_eq!(result.failed, 0);
    assert_eq!(result.results.len(), 1);

    // Check wallet was created
    let wallet = client.get_wallet(owner).unwrap();
    assert_eq!(wallet.owner, owner);
    assert_eq!(wallet.id, 1);
    assert_eq!(wallet.created_at, 12345);
}

#[test]
fn test_batch_create_wallets_multiple() {
    let (admin, mut client) = setup_test_env();

    let owner1 = generate(1);
    let owner2 = generate(2);
    let owner3 = generate(3);

    let mut requests: Vec<WalletCreateRequest> = Vec::new();
    requests.push(create_wallet_request(owner1));
    requests.push(create_wallet_request(owner2));
    requests.push(create_wallet_request(owner3));

    let result = create_wallets(&mut client, admin, &requests);

    assert_eq!(result.total_requests, 3);
    assert_eq!(result.successful, 3);
    assert_eq!(result.failed, 0);

    // Check wallets were created with sequential IDs
    let wallet1 = client.get_wallet(owner1).unwrap();
    assert_eq!(wallet1.id, 1);
    let wallet2 = client.get_wallet(owner2).unwrap();
    assert_eq!(wallet2.id, 2);
    let wallet3 = client.get_wallet(owner3).unwrap();
    assert_eq!(wallet3.id, 3);
}

#[test]
fn test_batch_create_wallets_partial_failures() {
    let (admin, mut client) = setup_test_env();

    let owner1 = generate(1);
    let owner2 = generate(2);
    let owner3 = generate(3);

    // First batch: create wallets for owner1 and owner2
    let mut requests1: Vec<WalletCreateRequest> = Vec::new();
    requests1.push(create_wallet_request(owner1));
    requests1.push(create_wallet_request(owner2));
    create_wallets(&mut client, admin, &requests1);

    // Second batch: try to create for owner1 (duplicate), owner2 (duplicate), owner3 (new)
    let mut requests2: Vec<WalletCreateRequest> = Vec::new();
    requests2.push(create_wallet_request(owner1)); // Duplicate
    requests2.push(create_wallet_request(owner2)); // Duplicate
    requests2.push(create_wallet_request(owner3)); // New

    let result = create_wallets(&mut client, admin, &requests2);

    assert_eq!(result.total_requests, 3);
    assert_eq!(result.successful, 1);
    assert_eq!(result.failed, 2);

    // Check results
    match result.results.get(0).unwrap() {
        WalletCreateResult::Failure(addr, error_code) => {
            assert_eq!(*addr, owner1);
            assert_eq!(*error_code, 1); // Already exists
        }
        _ => panic!("Expected failure for duplicate"),
    }
    match result.results.get(1).unwrap() {
        WalletCreateResult::Failure(addr, error_code) => {
            assert_eq!(*addr, owner2);
            assert_eq!(*error_code, 1); // Already exists
        }
        _ => panic!("Expected failure for duplicate"),
    }
    match result.results.get(2).unwrap() {
        WalletCreateResult::Success(addr) => {
            assert_eq!(*addr, owner3);
        }
        _ => panic!("Expected success for new wallet"),
    }

    // Check wallet3 was created
    let wallet3 = client.get_wallet(owner3).unwrap();
    assert_eq!(wallet3.id, 3); // IDs continue from previous batch

    // The wallets of the first batch are as they were
    assert_eq!(client.get_wallet(owner1).unwrap().id, 1);
    assert_eq!(client.get_wallet(owner2).unwrap().id, 2);
}

#[test]
fn test_batch_create_wallets_repeated_owner_in_one_batch() {
    let (admin, mut client) = setup_test_env();

    let owner1 = generate(1);
    let owner2 = generate(2);

    let mut requests: Vec<WalletCreateRequest> = Vec::new();
    requests.push(create_wallet_request(owner1));
    requests.push(create_wallet_request(owner1)); // Duplicate within the batch
    requests.push(create_wallet_request(owner2));

    let result = create_wallets(&mut client, admin, &requests);
    assert_eq!(
        result.results,
        vec![
            WalletCreateResult::Success(owner1),
            WalletCreateResult::Failure(owner1, 1),
            WalletCreateResult::Success(owner2),
        ]
    );
    assert_eq!(result.successful, 2);
    assert_eq!(result.failed, 1);
    assert_eq!(client.get_wallet(owner1), Some(Wallet { id: 1, owner: owner1, created_at: 12345 }));
    assert_eq!(client.get_wallet(owner2), Some(Wallet { id: 2, owner: owner2, created_at: 12345 }));
    assert_eq!(client.get_total_wallets_created(), 2);
}

#[test]
fn test_batch_create_wallets_events_emitted() {
    let (admin, mut client) = setup_test_env();

    let owner1 = generate(1);
    let owner2 = generate(2);

    let mut requests: Vec<WalletCreateRequest> = Vec::new();
    requests.push(create_wallet_request(owner1));
    requests.push(create_wallet_request(owner2));
    requests.push(create_wallet_request(owner1));

    create_wallets(&mut client, admin, &requests);

    let events = client.events.clone();
    // Should have: batch_started, wallet_created (2), batch_completed
    assert!(events.len() >= 4);
    assert_eq!(
        events,
        vec![
            WalletEvent::BatchStarted { batch_id: 1, request_count: 3 },
            WalletEvent::WalletCreated { batch_id: 1, owner: owner1, wallet_id: 1 },
            WalletEvent::WalletCreated { batch_id: 1, owner: owner2, wallet_id: 2 },
            WalletEvent::WalletCreationFailure { batch_id: 1, owner: owner1, error_code: 1 },
            WalletEvent::BatchCompleted { batch_id: 1, successful: 2, failed: 1 },
        ]
    );
}

#[test]
fn test_batch_create_wallets_accumulates_stats() {
    let (admin, mut client) = setup_test_env();

    let owner1 = generate(1);
    let owner2 = generate(2);

    let mut requests1: Vec<WalletCreateRequest> = Vec::new();
    requests1.push(create_wallet_request(owner1));

    let mut requests2: Vec<WalletCreateRequest> = Vec::new();
    requests2.push(create_wallet_request(owner2));

    assert_eq!(client.get_total_batches(), 0);
    assert_eq!(client.get_total_wallets_created(), 0);

    create_wallets(&mut client, admin, &requests1);
    assert_eq!(client.get_total_batches(), 1);
    assert_eq!(client.get_total_wallets_created(), 1);

    create_wallets(&mut client, admin, &requests2);
    assert_eq!(client.get_total_batches(), 2);
    assert_eq!(client.get_total_wallets_created(), 2);
}

#[test]
fn test_batch_create_wallets_empty_batch() {
    let (admin, mut client) = setup_test_env();

    let requests: Vec<WalletCreateRequest> = Vec::new();
    let result = client.batch_create_wallets(admin, LEDGER, &requests);
    assert_eq!(result, Err(BatchWalletError::EmptyBatch));
    assert_eq!(client.get_total_batches(), 0);
    assert_eq!(client.get_total_wallets_created(), 0);
    assert!(client.events.is_empty());
    assert!(client.wallets.entries.is_empty());
}

#[test]
fn test_batch_create_wallets_batch_too_large() {
    let (admin, mut client) = setup_test_env();

    let mut requests: Vec<WalletCreateRequest> = Vec::new();
    for i in 0..101 {
        requests.push(create_wallet_request(generate(i)));
    }
    let result = client.batch_create_wallets(admin, LEDGER, &requests);
    assert_eq!(result, Err(BatchWalletError::BatchTooLarge));
    assert_eq!(client.get_total_batches(), 0);
    assert_eq!(client.get_total_wallets_created(), 0);
    assert!(client.events.is_empty());
    assert_eq!(client.get_wallet(generate(0)), None);
}

#[test]
fn test_batch_create_wallets_unauthorized() {
    let (_admin, mut client) = setup_test_env();

    let unauthorized = generate(77);
    let owner = generate(1);

    let mut requests: Vec<WalletCreateRequest> = Vec::new();
    requests.push(create_wallet_request(owner));

    let result = client.batch_create_wallets(unauthorized, LEDGER, &requests);
    assert_eq!(result, Err(BatchWalletError::Unauthorized));
    assert_eq!(client.get_wallet(owner), None);
    assert!(client.events.is_empty());

    let mut fresh = BatchWalletContract::new();
    let result = fresh.batch_create_wallets(unauthorized, LEDGER, &requests);
    assert_eq!(result, Err(BatchWalletError::NotInitialized));
    assert_eq!(fresh.get_admin(), Err(BatchWalletError::NotInitialized));
}

#[test]
fn test_batch_create_wallets_large_batch() {
    let (admin, mut client) = setup_test_env();

    // Create a batch with 50 owners
    let mut requests: Vec<WalletCreateRequest> = Vec::new();
    let mut owners: Vec<Address> = Vec::new();

    for i in 0..50 {
        let owner = generate(i);
        owners.push(owner);
        requests.push(create_wallet_request(owner));
    }

    let result = create_wallets(&mut client, admin, &requests);

    assert_eq!(result.total_requests, 50);
    assert_eq!(result.successful, 50);
    assert_eq!(result.failed, 0);

    // Check some wallets
    let wallet1 = client.get_wallet(*owners.get(0).unwrap()).unwrap();
    assert_eq!(wallet1.id, 1);
    let wallet50 = client.get_wallet(*owners.get(49).unwrap()).unwrap();
    assert_eq!(wallet50.id, 50);
}

// Admin Tests

#[test]
fn test_test_set_admin() {
    let (admin, mut client) = setup_test_env();

    let new_admin = generate(1);
    assert_eq!(client.set_admin(admin, new_admin), Ok(()));

    assert_eq!(client.get_admin(), Ok(new_admin));
    assert_eq!(client.set_admin(admin, admin), Err(BatchWalletError::Unauthorized));
}

// Multiple Simultaneous Batch Creations

#[test]
fn test_multiple_simultaneous_batch_creations() {
    let (admin, mut client) = setup_test_env();

    // First batch: 3 owners
    let owner1 = generate(1);
    let owner2 = generate(2);
    let owner3 = generate(3);

    let mut batch1: Vec<WalletCreateRequest> = Vec::new();
    batch1.push(create_wallet_request(owner1));
    batch1.push(create_wallet_request(owner2));
    batch1.push(create_wallet_request(owner3));

    let result1 = create_wallets(&mut client, admin, &batch1);
    assert_eq!(result1.successful, 3);

    // Second batch: 2 owners (one new, one duplicate)
    let owner4 = generate(4);

    let mut batch2: Vec<WalletCreateRequest> = Vec::new();
    batch2.push(create_wallet_request(owner1)); // Duplicate
    batch2.push(create_wallet_request(owner4)); // New

    let result2 = create_wallets(&mut client, admin, &batch2);
    assert_eq!(result2.successful, 1);
    assert_eq!(result2.failed, 1);

    // Verify contract stats
    assert_eq!(client.get_total_batches(), 2);
    assert_eq!(client.get_total_wallets_created(), 4); // 3 + 1
    assert_eq!(client.get_wallet(owner4).unwrap().id, 4);
}

#[test]
fn test_wallet_error_codes() {
    assert_eq!(BatchWalletError::NotInitialized.code(), 1);
    assert_eq!(BatchWalletError::Unauthorized.code(), 2);
    assert_eq!(BatchWalletError::InvalidBatch.code(), 3);
    assert_eq!(BatchWalletError::EmptyBatch.code(), 4);
    assert_eq!(BatchWalletError::BatchTooLarge.code(), 5);
}

#[test]
fn test_wallet_counters_without_room() {
    let (_admin, mut client) = setup_test_env();
    client.total_wallets_created = u64::MAX - 99;
    assert!(!client.can_accept_batch());
    client.total_wallets_created = u64::MAX - 100;
    assert!(client.can_accept_batch());
    client.total_batches = u64::MAX;
    assert!(!client.can_accept_batch());
}

#[test]
fn test_wallet_events_append() {
    let mut trail = Vec::new();
    WalletEvents::batch_started(&mut trail, 9, 2);
    WalletEvents::wallet_created(&mut trail, 9, &generate(1), 4);
    WalletEvents::wallet_creation_failure(&mut trail, 9, &generate(2), 1);
    WalletEvents::batch_completed(&mut trail, 9, 1, 1);
    assert_eq!(
        trail,
        vec![
            WalletEvent::BatchStarted { batch_id: 9, request_count: 2 },
            WalletEvent::WalletCreated { batch_id: 9, owner: generate(1), wallet_id: 4 },
            WalletEvent::WalletCreationFailure { batch_id: 9, owner: generate(2), error_code: 1 },
            WalletEvent::BatchCompleted { batch_id: 9, successful: 1, failed: 1 },
        ]
    );
}
