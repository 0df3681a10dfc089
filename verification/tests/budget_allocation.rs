use batch_ledger::address::Address;
use batch_ledger::budget_allocation::types::{
    BatchBudgetResult, BudgetEvent, BudgetRecord, BudgetRequest,
};
use batch_ledger::budget_allocation::{BudgetAllocationContract, BudgetAllocationError};
use batch_ledger::tally::AlreadyInitialized;

fn generate(n: u128) -> Address {
    Address::account(2, n)
}

#[test]
fn test_batch_allocate_budget() {
    let mut client = BudgetAllocationContract::new();

    let admin = generate(100);
    assert_eq!(client.initialize(admin), Ok(()));

    let user1 = generate(1);
    let user2 = generate(2);
    let user3 = generate(3);

    let requests = vec![
        BudgetRequest { user: user1.clone(), amount: 1000 },
        BudgetRequest { user: user2.clone(), amount: 2000 },
        BudgetRequest { user: user3.clone(), amount: -500 }, // Invalid
    ];

    let result = client.batch_allocate_budget(admin, 0, &requests).unwrap();

    assert_eq!(result.successful, 2);
    assert_eq!(result.failed, 1);
    assert_eq!(result.total_amount, 3000);

    // Verify user1 budget
    let budget1 = client.get_budget(user1).unwrap();
    assert_eq!(budget1.user, user1);
    assert_eq!(budget1.amount, 1000);

    // Verify user2 budget
    let budget2 = client.get_budget(user2).unwrap();
    assert_eq!(budget2.user, user2);
    assert_eq!(budget2.amount, 2000);

    // Verify user3 budget (should be None)
    let budget3 = client.get_budget(user3);
    assert!(budget3.is_none());

    // Check updates
    // Update user1 amount
    let requests2 = vec![BudgetRequest { user: user1.clone(), amount: 1500 }];
    let result2 = client.batch_allocate_budget(admin, 0, &requests2).unwrap();
    assert_eq!(result2.successful, 1);
    assert_eq!(result2.total_amount, 1500);

    let budget1_updated = client.get_budget(user1).unwrap();
    assert_eq!(budget1_updated.amount, 1500);
    // The budget of user2 is as it was
    assert_eq!(client.get_budget(user2).unwrap().amount, 2000);
}

#[test]
fn test_unauthorized_access() {
    let mut client = BudgetAllocationContract::new();

    let admin = generate(100);
    assert_eq!(client.initialize(admin), Ok(()));

    let not_admin = generate(101);
    let user1 = generate(1);
    let requests = vec![BudgetRequest { user: user1.clone(), amount: 1000 }];

    let result = client.batch_allocate_budget(not_admin, 0, &requests);
    assert_eq!(result, Err(BudgetAllocationError::Unauthorized));
    assert_eq!(client.get_budget(user1), None);
    assert!(client.events.is_empty());
}

#[test]
fn test_budget_not_initialized() {
    let mut client = BudgetAllocationContract::new();
    assert_eq!(client.get_admin(), Err(BudgetAllocationError::NotInitialized));
    let requests = vec![BudgetRequest { user: generate(1), amount: 1000 }];
    let result = client.batch_allocate_budget(generate(100), 0, &requests);
    assert_eq!(result, Err(BudgetAllocationError::NotInitialized));
    assert_eq!(client.initialize(generate(100)), Ok(()));
    assert_eq!(client.get_admin(), Ok(generate(100)));
    assert_eq!(client.initialize(generate(101)), Err(AlreadyInitialized));
    assert_eq!(client.get_admin(), Ok(generate(100)));
}

#[test]
fn test_budget_batch_size_limits() {
    let mut client = BudgetAllocationContract::new();
    let admin = generate(100);
    assert_eq!(client.initialize(admin), Ok(()));

    let mut requests: Vec<BudgetRequest> = Vec::new();
    assert_eq!(
        client.batch_allocate_budget(admin, 0, &requests),
        Err(BudgetAllocationError::EmptyBatch)
    );
    for i in 0..101 {
        requests.push(BudgetRequest { user: generate(i), amount: 1 });
    }
    assert_eq!(
        client.batch_allocate_budget(admin, 0, &requests),
        Err(BudgetAllocationError::BatchTooLarge)
    );
    assert!(client.events.is_empty());
    assert_eq!(client.get_budget(generate(0)), None);
    requests.pop();
    assert_eq!(
        client.batch_allocate_budget(admin, 0, &requests),
        Ok(BatchBudgetResult { successful: 100, failed: 0, total_amount: 100 })
    );
}

#[test]
fn test_budget_last_write_wins_and_events() {
    let mut client = BudgetAllocationContract::new();
    let admin = generate(100);
    assert_eq!(client.initialize(admin), Ok(()));
    let user = generate(1);
    let requests = vec![
        BudgetRequest { user, amount: 10 },
        BudgetRequest { user, amount: -1 },
        BudgetRequest { user, amount: 0 },
    ];
    let result = client.batch_allocate_budget(admin, 99, &requests).unwrap();
    assert_eq!(result, BatchBudgetResult { successful: 2, failed: 1, total_amount: 10 });
    assert_eq!(client.get_budget(user), Some(BudgetRecord { user, amount: 0, last_updated: 99 }));
    assert_eq!(
        client.events,
        vec![
            BudgetEvent::BudgetSet { user, amount: 10 },
            BudgetEvent::BudgetFailed { user, amount: -1 },
            BudgetEvent::BudgetSet { user, amount: 0 },
        ]
    );
}

#[test]
fn test_budget_total_saturates() {
    let mut client = BudgetAllocationContract::new();
    let admin = generate(100);
    assert_eq!(client.initialize(admin), Ok(()));
    let requests = vec![
        BudgetRequest { user: generate(1), amount: i128::MAX },
        BudgetRequest { user: generate(2), amount: 1 },
    ];
    let result = client.batch_allocate_budget(admin, 0, &requests).unwrap();
    assert_eq!(result.total_amount, i128::MAX);
    assert_eq!(result.successful, 2);
}

#[test]
fn test_budget_set_admin() {
    let mut client = BudgetAllocationContract::new();
    let admin = generate(100);
    let new_admin = generate(101);
    assert_eq!(client.set_admin(admin, new_admin), Err(BudgetAllocationError::NotInitialized));
    assert_eq!(client.initialize(admin), Ok(()));
    assert_eq!(client.set_admin(new_admin, new_admin), Err(BudgetAllocationError::Unauthorized));
    assert_eq!(client.get_admin(), Ok(admin));
    assert_eq!(client.set_admin(admin, new_admin), Ok(()));
    assert_eq!(client.get_admin(), Ok(new_admin));
}
