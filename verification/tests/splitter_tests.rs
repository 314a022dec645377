use payment_splitter::calculate_plan;
use payment_splitter::AccountId;
use payment_splitter::Balance;
use payment_splitter::Deposit;
use payment_splitter::Error;
use payment_splitter::PaymentSplitter;
use payment_splitter::PayoutInfo;

#[test]
fn trigger_payout_unauthorized() {
    let alice: AccountId = AccountId(1);
    let bob: AccountId = AccountId(2);
    let charlie: AccountId = AccountId(3);
    let payees: Vec<AccountId> = vec![bob, charlie];
    let contract = PaymentSplitter::new(payees, alice);

    let mut pool_balance: Balance = 0;
    contract.deposit(charlie, 100).unwrap();
    pool_balance += 100;

    // Bob is not the designated authority.
    let result = contract.calculate_payout(bob, pool_balance);
    assert_eq!(result, Err(Error::Unauthorized));
}

#[test]
fn basic_workflow() {
    let alice: AccountId = AccountId(1);
    let bob: AccountId = AccountId(2);
    let charlie: AccountId = AccountId(3);
    let payees: Vec<AccountId> = vec![bob, charlie];
    let mut contract = PaymentSplitter::new(payees, alice);

    let initial_contract_balance: Balance = 1000000;
    let bob_balance: Balance = 2000010;
    let charlie_balance: Balance = 3000010;
    let alice_deposit: Balance = 121;
    let balance_plus_deposit: Balance = initial_contract_balance + alice_deposit;
    let expected_bob_received: Balance = 500061;
    let expected_charlie_received: Balance = 500060;

    let mut contract_balance: Balance = initial_contract_balance;
    let mut bob_funds: Balance = bob_balance;
    let mut charlie_funds: Balance = charlie_balance;

    // Deposit: the host ledger credits the pool; the library validates the
    // attached value and hands back the notification to emit.
    let note = contract.deposit(alice, alice_deposit).unwrap();
    assert_eq!(note, Deposit { from: alice, value: alice_deposit });
    contract_balance += alice_deposit;
    assert_eq!(contract_balance, balance_plus_deposit);

    // Read-only planning.
    let payout_info = contract.calculate_payout(alice, contract_balance).unwrap();
    assert_eq!(payout_info.len(), 2);
    assert_eq!(payout_info[0].payee, bob);
    assert_eq!(payout_info[0].amount, expected_bob_received);
    assert_eq!(payout_info[1].payee, charlie);
    assert_eq!(payout_info[1].amount, expected_charlie_received);

    // Trigger: the host performs each planned transfer, in plan order.
    let plan = contract.trigger_payout(alice, contract_balance).unwrap();
    for info in plan.iter() {
        contract_balance -= info.amount;
        if info.payee == bob {
            bob_funds += info.amount;
        }
        if info.payee == charlie {
            charlie_funds += info.amount;
        }
    }
    contract.settle_payout(true).unwrap();

    assert_eq!(contract_balance, 0);
    assert_eq!(bob_funds, bob_balance + expected_bob_received);
    assert_eq!(charlie_funds, charlie_balance + expected_charlie_received);
    assert!(!contract.is_locked());
}

#[test]
fn calculator_partitions_balance_exactly() {
    let payees: Vec<AccountId> = vec![AccountId(7), AccountId(8), AccountId(9)];
    let plan: Vec<PayoutInfo> = calculate_plan(&payees, 7).unwrap();
    assert_eq!(plan.len(), 3);
    // share = floor(7 / 3) = 2, remainder = 1, all of it to the first payee
    assert_eq!(plan[0].payee, AccountId(7));
    assert_eq!(plan[0].amount, 3);
    assert_eq!(plan[1].amount, 2);
    assert_eq!(plan[2].amount, 2);
    let total: Balance = plan.iter().map(|info| info.amount).sum();
    assert_eq!(total, 7);
}

#[test]
fn calculator_single_payee_takes_everything() {
    let payees: Vec<AccountId> = vec![AccountId(4)];
    let plan: Vec<PayoutInfo> = calculate_plan(&payees, 9).unwrap();
    assert_eq!(plan.len(), 1);
    assert_eq!(plan[0].payee, AccountId(4));
    assert_eq!(plan[0].amount, 9);
}

#[test]
fn calculator_largest_balance_single_payee() {
    let payees: Vec<AccountId> = vec![AccountId(4)];
    let plan: Vec<PayoutInfo> = calculate_plan(&payees, Balance::MAX).unwrap();
    assert_eq!(plan[0].amount, Balance::MAX);
}

#[test]
fn calculator_largest_balance_two_payees() {
    let payees: Vec<AccountId> = vec![AccountId(4), AccountId(5)];
    let plan: Vec<PayoutInfo> = calculate_plan(&payees, Balance::MAX).unwrap();
    // Balance::MAX is odd: the first payee absorbs the leftover unit.
    assert_eq!(plan[0].amount, Balance::MAX / 2 + 1);
    assert_eq!(plan[1].amount, Balance::MAX / 2);
    assert_eq!(plan[0].amount + plan[1].amount, Balance::MAX);
}

#[test]
fn calculator_empty_payees_rejected() {
    let payees: Vec<AccountId> = Vec::new();
    assert_eq!(calculate_plan(&payees, 500), Err(Error::NoPayees));
    // regardless of balance, even zero
    assert_eq!(calculate_plan(&payees, 0), Err(Error::NoPayees));
}

#[test]
fn calculator_zero_balance_rejected() {
    let payees: Vec<AccountId> = vec![AccountId(1), AccountId(2)];
    assert_eq!(calculate_plan(&payees, 0), Err(Error::ZeroShare));
}

#[test]
fn calculator_balance_below_payee_count_rejected() {
    let payees: Vec<AccountId> = vec![AccountId(1), AccountId(2), AccountId(3)];
    assert_eq!(calculate_plan(&payees, 2), Err(Error::ZeroShare));
}

#[test]
fn deposit_zero_value_rejected() {
    let contract = PaymentSplitter::new(vec![AccountId(2)], AccountId(1));
    assert_eq!(contract.deposit(AccountId(5), 0), Err(Error::ZeroShare));
}

#[test]
fn deposit_positive_value_notifies_caller_and_amount() {
    let contract = PaymentSplitter::new(vec![AccountId(2)], AccountId(1));
    let note = contract.deposit(AccountId(5), 77).unwrap();
    assert_eq!(note, Deposit { from: AccountId(5), value: 77 });
}

#[test]
fn trigger_payout_by_non_authority_changes_nothing() {
    let alice: AccountId = AccountId(1);
    let bob: AccountId = AccountId(2);
    let mut contract = PaymentSplitter::new(vec![bob], alice);
    let pool_balance: Balance = 1000;

    let result = contract.trigger_payout(bob, pool_balance);
    assert_eq!(result, Err(Error::Unauthorized));
    // no transfers were requested, so the pool is untouched, and the
    // guard was never taken
    assert!(!contract.is_locked());
    assert_eq!(contract.authority(), alice);
    assert_eq!(contract.payee_count(), 1);
}

#[test]
fn trigger_payout_while_locked_rejected() {
    let alice: AccountId = AccountId(1);
    let bob: AccountId = AccountId(2);
    let mut contract = PaymentSplitter::new(vec![bob], alice);
    let pool_balance: Balance = 1000;

    let first = contract.trigger_payout(alice, pool_balance);
    assert!(first.is_ok());
    assert!(contract.is_locked());

    // a nested trigger — say, a payee calling back in mid-transfer — is
    // rejected without touching any state
    let nested = contract.trigger_payout(alice, pool_balance);
    assert_eq!(nested, Err(Error::ReentrancyGuardLocked));
    assert!(contract.is_locked());

    contract.settle_payout(true).unwrap();
    assert!(!contract.is_locked());
}

#[test]
fn trigger_payout_calculator_error_releases_guard() {
    let alice: AccountId = AccountId(1);
    let bob: AccountId = AccountId(2);
    let mut contract = PaymentSplitter::new(vec![bob], alice);

    let result = contract.trigger_payout(alice, 0);
    assert_eq!(result, Err(Error::ZeroShare));
    assert!(!contract.is_locked());
}

#[test]
fn settle_payout_failure_reports_and_releases_guard() {
    let alice: AccountId = AccountId(1);
    let bob: AccountId = AccountId(2);
    let mut contract = PaymentSplitter::new(vec![bob], alice);

    let plan = contract.trigger_payout(alice, 50).unwrap();
    assert_eq!(plan[0].amount, 50);
    // the host reports that a transfer was rejected mid-payout
    let result = contract.settle_payout(false);
    assert_eq!(result, Err(Error::TransferFailed));
    assert!(!contract.is_locked());
}

#[test]
fn calculator_is_idempotent_and_side_effect_free() {
    let alice: AccountId = AccountId(1);
    let bob: AccountId = AccountId(2);
    let charlie: AccountId = AccountId(3);
    let contract = PaymentSplitter::new(vec![bob, charlie], alice);
    let pool_balance: Balance = 1000121;

    let first = contract.calculate_payout(alice, pool_balance);
    let second = contract.calculate_payout(alice, pool_balance);
    assert_eq!(first, second);
    assert!(first.is_ok());
    assert!(!contract.is_locked());
}
