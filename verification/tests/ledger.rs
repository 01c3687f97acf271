use mailbox::{AccountLedger, MailError, StorageBalance, Transfer};

fn registered(account: &str, amount: u128, byte_cost: u128) -> AccountLedger {
    let mut ledger = AccountLedger::new();
    ledger.deposit(account, account, amount, false, byte_cost).unwrap();
    ledger
}

#[test]
fn new_ledger_has_no_accounts() {
    let ledger = AccountLedger::new();
    assert!(!ledger.is_registered("alice"));
    assert_eq!(ledger.available("alice"), None);
    assert_eq!(ledger.balance_of("alice"), None);
}

#[test]
fn first_deposit_leaves_amount_less_min_deposit_available() {
    let mut ledger = AccountLedger::new();
    let result = ledger.deposit("alice", "alice", 1020, false, 1);
    assert_eq!(result, Ok((StorageBalance { total: 1020, available: 1000 }, None)));
    assert!(ledger.is_registered("alice"));
    assert_eq!(ledger.available("alice"), Some(1000));
    assert_eq!(ledger.balance_of("alice"), Some(StorageBalance { total: 1020, available: 1000 }));
}

#[test]
fn first_deposit_at_another_price() {
    let mut ledger = AccountLedger::new();
    let result = ledger.deposit("alice", "alice", 1000, false, 7);
    assert_eq!(result, Ok((StorageBalance { total: 1000, available: 860 }, None)));
    assert_eq!(ledger.available("alice"), Some(860));
}

#[test]
fn registration_only_refunds_the_excess_to_the_payer() {
    let mut ledger = AccountLedger::new();
    let result = ledger.deposit("payer", "alice", 20 + 345, true, 1);
    assert_eq!(
        result,
        Ok((
            StorageBalance { total: 20, available: 0 },
            Some(Transfer { receiver: "payer".to_string(), amount: 345 })
        ))
    );
    assert_eq!(ledger.available("alice"), Some(0));
    assert!(!ledger.is_registered("payer"));
}

#[test]
fn first_deposit_must_exceed_the_min_deposit() {
    let mut ledger = AccountLedger::new();
    assert_eq!(ledger.deposit("alice", "alice", 20, false, 1), Err(MailError::InsufficientDeposit));
    assert_eq!(ledger.deposit("alice", "alice", 19, true, 1), Err(MailError::InsufficientDeposit));
    assert_eq!(ledger.deposit("alice", "alice", 0, false, 0), Err(MailError::InsufficientDeposit));
    assert!(!ledger.is_registered("alice"));
    assert_eq!(
        ledger.deposit("alice", "alice", 21, false, 1),
        Ok((StorageBalance { total: 21, available: 1 }, None))
    );
}

#[test]
fn first_deposit_is_refused_when_the_min_deposit_cannot_be_held() {
    let mut ledger = AccountLedger::new();
    assert_eq!(
        ledger.deposit("alice", "alice", u128::MAX, false, u128::MAX),
        Err(MailError::InsufficientDeposit)
    );
    assert_eq!(
        ledger.deposit("alice", "alice", u128::MAX, true, u128::MAX / 20 + 1),
        Err(MailError::InsufficientDeposit)
    );
    assert!(!ledger.is_registered("alice"));
}

#[test]
fn later_deposit_adds_to_the_deposit_and_leaves_used() {
    let mut ledger = registered("alice", 120, 1);
    let result = ledger.deposit("bob", "alice", 30, false, 5);
    assert_eq!(result, Ok((StorageBalance { total: 150, available: 130 }, None)));
    let small = ledger.deposit("alice", "alice", 1, true, 1_000_000);
    assert_eq!(small, Ok((StorageBalance { total: 151, available: 131 }, None)));
    assert_eq!(ledger.accounts.get("alice").unwrap().used, 20);
}

#[test]
fn withdraw_pays_back_and_lowers_the_deposit() {
    let mut ledger = registered("alice", 120, 1);
    let result = ledger.withdraw("alice", 40);
    assert_eq!(
        result,
        Ok((
            StorageBalance { total: 80, available: 60 },
            Transfer { receiver: "alice".to_string(), amount: 40 }
        ))
    );
    assert_eq!(ledger.available("alice"), Some(60));
    let account = ledger.accounts.get("alice").unwrap();
    assert!(account.used <= account.deposit);
}

#[test]
fn withdraw_of_all_that_is_available_leaves_used_covered() {
    let mut ledger = registered("alice", 120, 1);
    let result = ledger.withdraw("alice", 100);
    assert_eq!(
        result,
        Ok((
            StorageBalance { total: 20, available: 0 },
            Transfer { receiver: "alice".to_string(), amount: 100 }
        ))
    );
    let account = ledger.accounts.get("alice").unwrap();
    assert_eq!((account.deposit, account.used), (20, 20));
}

#[test]
fn withdraw_of_nothing_is_carried_out() {
    let mut ledger = registered("alice", 120, 1);
    assert_eq!(
        ledger.withdraw("alice", 0),
        Ok((
            StorageBalance { total: 120, available: 100 },
            Transfer { receiver: "alice".to_string(), amount: 0 }
        ))
    );
}

#[test]
fn withdraw_by_unknown_account_is_not_registered() {
    let mut ledger = registered("alice", 120, 1);
    assert_eq!(ledger.withdraw("bob", 1), Err(MailError::NotRegistered));
    assert_eq!(ledger.withdraw("bob", 0), Err(MailError::NotRegistered));
    assert_eq!(ledger.available("alice"), Some(100));
}

#[test]
fn withdraw_of_more_than_available_is_refused() {
    let mut ledger = registered("alice", 120, 1);
    assert_eq!(ledger.withdraw("alice", 101), Err(MailError::InsufficientAvailable));
    assert_eq!(ledger.withdraw("alice", u128::MAX), Err(MailError::InsufficientAvailable));
    assert_eq!(ledger.balance_of("alice"), Some(StorageBalance { total: 120, available: 100 }));
}

#[test]
fn unregister_refunds_the_whole_deposit() {
    let mut ledger = registered("alice", 120, 1);
    ledger.charge_mail("alice", 1);
    assert_eq!(
        ledger.unregister("alice"),
        Some(Transfer { receiver: "alice".to_string(), amount: 120 })
    );
    assert!(!ledger.is_registered("alice"));
    assert_eq!(ledger.available("alice"), None);
}

#[test]
fn unregister_of_unknown_account_does_nothing() {
    let mut ledger = registered("alice", 120, 1);
    assert_eq!(ledger.unregister("bob"), None);
    assert_eq!(ledger.unregister("bob"), None);
    assert_eq!(ledger.available("alice"), Some(100));
}

#[test]
fn account_can_register_again_after_unregistering() {
    let mut ledger = registered("alice", 120, 1);
    ledger.unregister("alice");
    assert_eq!(ledger.deposit("alice", "alice", 20, false, 1), Err(MailError::InsufficientDeposit));
    assert_eq!(
        ledger.deposit("alice", "alice", 50, false, 2),
        Ok((StorageBalance { total: 50, available: 10 }, None))
    );
}

#[test]
fn affording_one_more_mail_counts_all_sent_mail() {
    let ledger = registered("alice", 120, 1);
    // available is 100, one message costs 10
    assert!(ledger.can_afford_one_more_mail("alice", 0, 1));
    assert!(ledger.can_afford_one_more_mail("alice", 8, 1));
    assert!(!ledger.can_afford_one_more_mail("alice", 9, 1));
    assert!(!ledger.can_afford_one_more_mail("alice", 10, 1));
    assert!(ledger.can_afford_one_more_mail("alice", 0, 9));
    assert!(!ledger.can_afford_one_more_mail("alice", 0, 10));
}

#[test]
fn affording_needs_more_than_the_cost() {
    let ledger = registered("alice", 30, 1);
    // available is exactly the cost of one message
    assert_eq!(ledger.available("alice"), Some(10));
    assert!(!ledger.can_afford_one_more_mail("alice", 0, 1));
}

#[test]
fn affording_at_a_price_beyond_every_balance() {
    let ledger = registered("alice", u128::MAX, 1);
    assert!(!ledger.can_afford_one_more_mail("alice", 0, u128::MAX));
    assert!(!ledger.can_afford_one_more_mail("alice", u64::MAX, u128::MAX / 3));
    assert!(ledger.can_afford_one_more_mail("alice", u64::MAX, 1));
}

#[test]
fn free_storage_is_affordable_with_anything_available() {
    let mut ledger = AccountLedger::new();
    ledger.deposit("alice", "alice", 1, false, 0).unwrap();
    assert_eq!(ledger.available("alice"), Some(1));
    assert!(ledger.can_afford_one_more_mail("alice", 5, 0));
    ledger.charge_mail("alice", 0);
    assert_eq!(ledger.available("alice"), Some(1));
}

#[test]
fn charge_moves_the_cost_of_one_mail_into_use() {
    let mut ledger = registered("alice", 120, 1);
    ledger.charge_mail("alice", 3);
    let account = *ledger.accounts.get("alice").unwrap();
    assert_eq!((account.deposit, account.used), (120, 50));
    assert_eq!(ledger.available("alice"), Some(70));
}

#[test]
fn accounts_do_not_touch_each_other() {
    let mut ledger = registered("alice", 120, 1);
    ledger.deposit("bob", "bob", 500, false, 1).unwrap();
    ledger.withdraw("bob", 80).unwrap();
    ledger.charge_mail("bob", 1);
    assert_eq!(ledger.available("alice"), Some(100));
    assert_eq!(ledger.available("bob"), Some(390));
    ledger.unregister("alice");
    assert_eq!(ledger.available("bob"), Some(390));
}
