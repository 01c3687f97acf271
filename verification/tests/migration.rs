use mailbox::{
    AccountLedger, Contract, ContractV1, Email, EmailV1, MailIndex, MailStore, StorageBalance,
    UpgradeableEmail, DEFAULT_DONATION_ACCOUNT,
};

/// A state in the previous layout: alice sent bob one message, stored in
/// the previous record shape.
fn legacy_state() -> ContractV1 {
    let mut state = ContractV1 {
        index: MailIndex::new(),
        store: MailStore::new(),
        ledger: AccountLedger::new(),
    };
    state.ledger.deposit("alice", "alice", 1020, false, 1).unwrap();
    state.ledger.charge_mail("alice", 1);
    let old = EmailV1 { title: "old".to_string(), content: "news".to_string(), timestamp: 1234 };
    state.store.emails.insert(0, UpgradeableEmail::V1(old));
    state.store.email_count = 1;
    state.index.record("alice", "bob", 0);
    state
}

fn old_mail() -> Email {
    Email { title: "old".to_string(), content: "news".to_string(), timestamp: 1234, fee: 0 }
}

#[test]
fn migrate_takes_over_the_shared_state() {
    let contract = Contract::migrate(legacy_state());
    assert_eq!(contract.store.email_count, 1);
    assert_eq!(contract.mail_exist(), 1);
    assert_eq!(contract.get_mail_send_num("alice"), 1);
    assert_eq!(contract.get_mail_receive_num("bob"), 1);
    assert_eq!(
        contract.storage_balance_of("alice"),
        Some(StorageBalance { total: 1020, available: 990 })
    );
    assert_eq!(
        contract.store.emails.get(&0),
        Some(&UpgradeableEmail::V1(EmailV1 {
            title: "old".to_string(),
            content: "news".to_string(),
            timestamp: 1234
        }))
    );
}

#[test]
fn migrate_starts_the_new_fields_from_their_defaults() {
    let contract = Contract::migrate(legacy_state());
    assert_eq!(contract.donation_count, 0);
    assert_eq!(contract.donation_account, DEFAULT_DONATION_ACCOUNT);
}

#[test]
fn legacy_record_reads_upgraded_after_migration() {
    let contract = Contract::migrate(legacy_state());
    assert_eq!(contract.get_email(0), Ok(old_mail()));
    assert_eq!(contract.get_mail_receive("bob"), vec![old_mail()]);
    assert_eq!(contract.get_mail_send("alice"), vec![old_mail()]);
}

#[test]
fn new_mail_lives_beside_legacy_records() {
    let mut contract = Contract::migrate(legacy_state());
    let result = contract.send_mail_at(
        "alice",
        "bob".to_string(),
        "new".to_string(),
        "er".to_string(),
        5,
        5678,
        1,
    );
    assert_eq!(result.map(|r| r.0), Ok(1));
    let received = contract.get_mail_receive("bob");
    assert_eq!(received.len(), 2);
    assert!(received.contains(&old_mail()));
    assert!(received.contains(&Email {
        title: "new".to_string(),
        content: "er".to_string(),
        timestamp: 5678,
        fee: 5
    }));
}

#[test]
fn migrating_twice_keeps_shared_state_and_resets_new_fields() {
    let mut once = Contract::migrate(legacy_state());
    once.donation_count = 12;
    once.donation_account = "someone.else".to_string();
    let twice = Contract::migrate(once.into_legacy());
    assert_eq!(twice.store.email_count, 1);
    assert_eq!(twice.mail_exist(), 1);
    assert_eq!(twice.get_email(0), Ok(old_mail()));
    assert_eq!(twice.get_mail_send_num("alice"), 1);
    assert_eq!(twice.get_mail_receive_num("bob"), 1);
    assert_eq!(twice.index.sent_ids("alice"), vec![0]);
    assert_eq!(twice.index.received_ids("bob"), vec![0]);
    assert_eq!(
        twice.storage_balance_of("alice"),
        Some(StorageBalance { total: 1020, available: 990 })
    );
    assert_eq!(twice.donation_count, 0);
    assert_eq!(twice.donation_account, DEFAULT_DONATION_ACCOUNT);
}

#[test]
fn migrating_an_empty_state() {
    let state = ContractV1 {
        index: MailIndex::new(),
        store: MailStore::new(),
        ledger: AccountLedger::new(),
    };
    let contract = Contract::migrate(state);
    assert_eq!(contract.mail_exist(), 0);
    assert_eq!(contract.mail_delete(), 0);
    assert_eq!(contract.store.email_count, 0);
}
