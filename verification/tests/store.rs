use mailbox::{Email, EmailV1, MailError, MailStore, UpgradeableEmail};

fn mail(title: &str, content: &str, timestamp: u64, fee: u128) -> Email {
    Email { title: title.to_string(), content: content.to_string(), timestamp, fee }
}

#[test]
fn new_store_is_empty() {
    let store = MailStore::new();
    assert_eq!(store.email_count, 0);
    assert_eq!(store.live_count(), 0);
    assert_eq!(store.deleted_count(), 0);
    assert_eq!(store.read(0), Err(MailError::NotFound));
}

#[test]
fn create_gives_out_ids_from_zero_upwards() {
    let mut store = MailStore::new();
    assert_eq!(store.create("a".to_string(), "x".to_string(), 0, 1), 0);
    assert_eq!(store.create("b".to_string(), "y".to_string(), 5, 2), 1);
    assert_eq!(store.create("c".to_string(), "z".to_string(), 0, 3), 2);
    assert_eq!(store.email_count, 3);
    assert_eq!(store.live_count(), 3);
}

#[test]
fn read_returns_what_was_created() {
    let mut store = MailStore::new();
    store.create("a".to_string(), "x".to_string(), 0, 1);
    let id = store.create("hello".to_string(), "world".to_string(), 77, 1_660_000_000);
    assert_eq!(store.read(id), Ok(mail("hello", "world", 1_660_000_000, 77)));
    assert_eq!(store.read(0), Ok(mail("a", "x", 1, 0)));
    assert!(store.contains(id));
    assert!(!store.contains(2));
}

#[test]
fn created_record_has_the_current_shape() {
    let mut store = MailStore::new();
    let id = store.create("t".to_string(), "c".to_string(), 9, 8);
    assert_eq!(store.emails.get(&id), Some(&UpgradeableEmail::Current(mail("t", "c", 8, 9))));
}

#[test]
fn read_of_unknown_id_is_not_found() {
    let mut store = MailStore::new();
    store.create("a".to_string(), "x".to_string(), 0, 1);
    assert_eq!(store.read(1), Err(MailError::NotFound));
    assert_eq!(store.read(u128::MAX), Err(MailError::NotFound));
}

#[test]
fn delete_removes_the_record_and_keeps_the_counter() {
    let mut store = MailStore::new();
    store.create("a".to_string(), "x".to_string(), 0, 1);
    store.create("b".to_string(), "y".to_string(), 0, 2);
    assert_eq!(store.delete(0), Ok(()));
    assert_eq!(store.read(0), Err(MailError::NotFound));
    assert_eq!(store.read(1), Ok(mail("b", "y", 2, 0)));
    assert_eq!(store.email_count, 2);
    assert_eq!(store.live_count(), 1);
    assert_eq!(store.deleted_count(), 1);
}

#[test]
fn delete_of_unknown_id_is_not_found() {
    let mut store = MailStore::new();
    store.create("a".to_string(), "x".to_string(), 0, 1);
    assert_eq!(store.delete(5), Err(MailError::NotFound));
    assert_eq!(store.delete(0), Ok(()));
    assert_eq!(store.delete(0), Err(MailError::NotFound));
    assert_eq!(store.deleted_count(), 1);
}

#[test]
fn ids_are_not_given_again_after_delete() {
    let mut store = MailStore::new();
    let first = store.create("a".to_string(), "x".to_string(), 0, 1);
    store.delete(first).unwrap();
    let second = store.create("b".to_string(), "y".to_string(), 0, 2);
    assert!(second > first);
    assert_eq!(second, 1);
    assert_eq!(store.read(first), Err(MailError::NotFound));
}

#[test]
fn legacy_record_is_upgraded_on_read_and_left_as_stored() {
    let mut store = MailStore::new();
    let old = EmailV1 { title: "old".to_string(), content: "news".to_string(), timestamp: 1234 };
    store.emails.insert(0, UpgradeableEmail::V1(old.clone()));
    store.email_count = 1;
    assert_eq!(store.read(0), Ok(mail("old", "news", 1234, 0)));
    assert_eq!(store.emails.get(&0), Some(&UpgradeableEmail::V1(old)));
    assert_eq!(store.create("new".to_string(), "er".to_string(), 3, 4), 1);
    assert_eq!(store.read_all(&vec![1, 0]), vec![mail("new", "er", 4, 3), mail("old", "news", 1234, 0)]);
}

#[test]
fn read_all_keeps_the_order_and_passes_over_deleted_ids() {
    let mut store = MailStore::new();
    store.create("a".to_string(), "x".to_string(), 0, 1);
    store.create("b".to_string(), "y".to_string(), 0, 2);
    store.create("c".to_string(), "z".to_string(), 0, 3);
    store.delete(1).unwrap();
    assert_eq!(store.read_all(&vec![2, 1, 0, 7]), vec![mail("c", "z", 3, 0), mail("a", "x", 1, 0)]);
    assert_eq!(store.read_all(&vec![]), Vec::<Email>::new());
    assert_eq!(store.read_all(&vec![1]), Vec::<Email>::new());
}

#[test]
fn upgrade_keeps_shared_fields_and_defaults_the_fee() {
    let old = EmailV1 { title: "t".to_string(), content: "c".to_string(), timestamp: 99 };
    assert_eq!(old.into_current(), mail("t", "c", 99, 0));
    assert_eq!(UpgradeableEmail::V1(old.clone()).into_current(), mail("t", "c", 99, 0));
    assert_eq!(UpgradeableEmail::V1(old).to_current(), mail("t", "c", 99, 0));
}

#[test]
fn upgrade_of_a_current_record_is_the_message() {
    let email = mail("t", "c", 99, 12);
    assert_eq!(UpgradeableEmail::Current(email.clone()).into_current(), email);
    assert_eq!(UpgradeableEmail::Current(email.clone()).to_current(), email);
    assert_eq!(email.duplicate(), email);
}

#[test]
fn upgrade_of_the_default_legacy_record() {
    assert_eq!(EmailV1::default().into_current(), mail("", "", 0, 0));
}

#[test]
fn record_from_a_message_is_a_current_record() {
    let email = mail("t", "c", 1, 2);
    assert_eq!(UpgradeableEmail::from(email.clone()), UpgradeableEmail::Current(email));
}
