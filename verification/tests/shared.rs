use batch_ledger::address::Address;
use batch_ledger::batch_conversion::{BatchConversionContract, BatchConversionError};
use batch_ledger::batch_history::{BatchHistoryContract, BatchHistoryError};
use batch_ledger::batch_notifications::{BatchNotificationContract, BatchNotificationError};
use batch_ledger::batch_transfer::{BatchTransferContract, BatchTransferError};
use batch_ledger::batch_wallet_creation::{BatchWalletContract, BatchWalletError};
use batch_ledger::budget_allocation::{BudgetAllocationContract, BudgetAllocationError};
use batch_ledger::budget_recommendations::{
    BudgetRecommendationError, BudgetRecommendationsContract,
};
use batch_ledger::savings_goals::{SavingsGoalError, SavingsGoalsContract};
use batch_ledger::store::EntityStore;
use batch_ledger::tally::accumulate;

#[test]
fn test_address_kinds_differ() {
    assert_eq!(Address::account(1, 2), Address { contract: false, hi: 1, lo: 2 });
    assert_eq!(Address::contract(1, 2), Address { contract: true, hi: 1, lo: 2 });
    assert_ne!(Address::account(1, 2), Address::contract(1, 2));
    assert_ne!(Address::account(1, 2), Address::account(2, 1));
}

#[test]
fn test_accumulate_holds_at_the_bounds() {
    assert_eq!(accumulate(1, 2), 3);
    assert_eq!(accumulate(-5, 2), -3);
    assert_eq!(accumulate(i128::MAX, 0), i128::MAX);
    assert_eq!(accumulate(i128::MAX, 1), i128::MAX);
    assert_eq!(accumulate(i128::MAX - 1, 1), i128::MAX);
    assert_eq!(accumulate(1, i128::MAX), i128::MAX);
    assert_eq!(accumulate(i128::MIN, -1), i128::MIN);
    assert_eq!(accumulate(i128::MIN, i128::MAX), -1);
}

#[test]
fn test_store_set_replaces() {
    let mut store: EntityStore<u64> = EntityStore::new();
    let a = Address::account(0, 1);
    let b = Address::account(0, 2);
    assert!(!store.has(&a));
    assert_eq!(store.get(&a), None);
    store.set(a, 10);
    store.set(b, 20);
    assert!(store.has(&a));
    assert_eq!(store.get(&a), Some(&10));
    assert_eq!(store.get(&b), Some(&20));
    store.set(a, 11);
    assert_eq!(store.get(&a), Some(&11));
    assert_eq!(store.get(&b), Some(&20));
    // One entry per address
    assert_eq!(store.entries.len(), 2);
    assert!(!store.has(&Address::contract(0, 1)));
}

#[test]
fn test_store_reads_last_write() {
    let a = Address::account(0, 1);
    let mut store = EntityStore { entries: vec![(a, 1u64), (a, 2u64)] };
    assert_eq!(store.get(&a), Some(&2));
    store.set(a, 3);
    assert_eq!(store.get(&a), Some(&3));
    assert_eq!(store.entries, vec![(a, 1u64), (a, 3u64)]);
}

#[test]
fn test_ledger_errors_carry_the_code() {
    let error = soroban_sdk::Error::from(BatchConversionError::EmptyBatch);
    assert_eq!(error.get_code(), 4);
    assert!(error.is_type(soroban_sdk::xdr::ScErrorType::Contract));
    assert_eq!(error, soroban_sdk::Error::from_contract_error(4));

    let error = soroban_sdk::Error::from(BatchConversionError::SlippageExceeded);
    assert_eq!(error.get_code(), 8);
    let error: soroban_sdk::Error = BatchTransferError::InvalidToken.into();
    assert_eq!(error.get_code(), 6);
    assert!(error.is_type(soroban_sdk::xdr::ScErrorType::Contract));
    let error: soroban_sdk::Error = SavingsGoalError::NotInitialized.into();
    assert_eq!(error.get_code(), 1);
    let error: soroban_sdk::Error = BatchWalletError::Unauthorized.into();
    assert_eq!(error.get_code(), 2);
    let error: soroban_sdk::Error = BudgetRecommendationError::BatchTooLarge.into();
    assert_eq!(error.get_code(), 5);
    assert!(error.is_type(soroban_sdk::xdr::ScErrorType::Contract));
}

#[test]
fn test_preconditions_in_order() {
    let admin = Address::account(0, 1);
    let other = Address::account(0, 2);

    let mut transfer = BatchTransferContract::new();
    assert_eq!(transfer.check_preconditions(&admin, 0), Err(BatchTransferError::NotInitialized));
    assert_eq!(transfer.initialize(admin), Ok(()));
    assert_eq!(transfer.check_preconditions(&other, 0), Err(BatchTransferError::Unauthorized));
    assert_eq!(transfer.check_preconditions(&admin, 0), Err(BatchTransferError::EmptyBatch));
    assert_eq!(transfer.check_preconditions(&admin, 101), Err(BatchTransferError::BatchTooLarge));
    assert_eq!(transfer.check_preconditions(&admin, 1), Ok(()));
    assert_eq!(transfer.check_preconditions(&admin, 100), Ok(()));

    let mut goals = SavingsGoalsContract::new();
    assert_eq!(goals.check_preconditions(&admin, 1), Err(SavingsGoalError::NotInitialized));
    assert_eq!(goals.initialize(admin), Ok(()));
    assert_eq!(goals.check_preconditions(&other, 1), Err(SavingsGoalError::Unauthorized));
    assert_eq!(goals.check_preconditions(&admin, 0), Err(SavingsGoalError::EmptyBatch));
    assert_eq!(goals.check_preconditions(&admin, 101), Err(SavingsGoalError::BatchTooLarge));
    assert_eq!(goals.check_preconditions(&admin, 100), Ok(()));

    let mut wallets = BatchWalletContract::new();
    assert_eq!(wallets.check_preconditions(&admin, 1), Err(BatchWalletError::NotInitialized));
    assert_eq!(wallets.initialize(admin), Ok(()));
    assert_eq!(wallets.check_preconditions(&other, 101), Err(BatchWalletError::Unauthorized));
    assert_eq!(wallets.check_preconditions(&admin, 101), Err(BatchWalletError::BatchTooLarge));
    assert_eq!(wallets.check_preconditions(&admin, 0), Err(BatchWalletError::EmptyBatch));
    assert_eq!(wallets.check_preconditions(&admin, 50), Ok(()));

    let mut recommendations = BudgetRecommendationsContract::new();
    assert_eq!(
        recommendations.check_preconditions(&admin, 1),
        Err(BudgetRecommendationError::NotInitialized)
    );
    assert_eq!(recommendations.initialize(admin), Ok(()));
    assert_eq!(
        recommendations.check_preconditions(&other, 1),
        Err(BudgetRecommendationError::Unauthorized)
    );
    assert_eq!(
        recommendations.check_preconditions(&admin, 0),
        Err(BudgetRecommendationError::EmptyBatch)
    );
    assert_eq!(
        recommendations.check_preconditions(&admin, 101),
        Err(BudgetRecommendationError::BatchTooLarge)
    );
    assert_eq!(recommendations.check_preconditions(&admin, 2), Ok(()));

    let mut budgets = BudgetAllocationContract::new();
    assert_eq!(budgets.check_preconditions(&admin, 1), Err(BudgetAllocationError::NotInitialized));
    assert_eq!(budgets.initialize(admin), Ok(()));
    assert_eq!(budgets.check_preconditions(&other, 1), Err(BudgetAllocationError::Unauthorized));
    assert_eq!(budgets.check_preconditions(&admin, 0), Err(BudgetAllocationError::EmptyBatch));
    assert_eq!(budgets.check_preconditions(&admin, 101), Err(BudgetAllocationError::BatchTooLarge));
    assert_eq!(budgets.check_preconditions(&admin, 1), Ok(()));

    assert_eq!(
        BatchConversionContract::check_preconditions(0),
        Err(BatchConversionError::EmptyBatch)
    );
    assert_eq!(
        BatchConversionContract::check_preconditions(101),
        Err(BatchConversionError::BatchTooLarge)
    );
    assert_eq!(BatchConversionContract::check_preconditions(100), Ok(()));
    assert_eq!(
        BatchNotificationContract::check_preconditions(0),
        Err(BatchNotificationError::EmptyBatch)
    );
    assert_eq!(
        BatchNotificationContract::check_preconditions(101),
        Err(BatchNotificationError::BatchTooLarge)
    );
    assert_eq!(BatchNotificationContract::check_preconditions(1), Ok(()));
    assert_eq!(BatchHistoryContract::check_preconditions(0), Err(BatchHistoryError::EmptyBatch));
    assert_eq!(
        BatchHistoryContract::check_preconditions(101),
        Err(BatchHistoryError::BatchTooLarge)
    );
    assert_eq!(BatchHistoryContract::check_preconditions(1), Ok(()));
}
