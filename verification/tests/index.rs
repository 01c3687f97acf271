use mailbox::index::{contains_id, copy_ids};
use mailbox::MailIndex;

#[test]
fn new_index_has_no_entries() {
    let index = MailIndex::new();
    assert_eq!(index.count_sent("alice"), 0);
    assert_eq!(index.count_received("alice"), 0);
    assert_eq!(index.sent_ids("alice"), Vec::<u128>::new());
    assert_eq!(index.received_ids("alice"), Vec::<u128>::new());
    assert!(!index.is_sender_of("alice", 0));
}

#[test]
fn record_indexes_sender_and_receiver() {
    let mut index = MailIndex::new();
    index.record("alice", "bob", 0);
    assert_eq!(index.sent_ids("alice"), vec![0]);
    assert_eq!(index.received_ids("bob"), vec![0]);
    assert_eq!(index.sent_ids("bob"), Vec::<u128>::new());
    assert_eq!(index.received_ids("alice"), Vec::<u128>::new());
    assert!(index.is_sender_of("alice", 0));
    assert!(!index.is_sender_of("bob", 0));
    assert!(!index.is_sender_of("alice", 1));
}

#[test]
fn record_counts_per_account() {
    let mut index = MailIndex::new();
    index.record("alice", "bob", 0);
    index.record("alice", "carol", 1);
    index.record("bob", "alice", 2);
    assert_eq!(index.count_sent("alice"), 2);
    assert_eq!(index.count_sent("bob"), 1);
    assert_eq!(index.count_sent("carol"), 0);
    assert_eq!(index.count_received("alice"), 1);
    assert_eq!(index.count_received("bob"), 1);
    assert_eq!(index.count_received("carol"), 1);
    let mut sent = index.sent_ids("alice");
    sent.sort();
    assert_eq!(sent, vec![0, 1]);
}

#[test]
fn recording_an_id_twice_changes_nothing() {
    let mut index = MailIndex::new();
    index.record("alice", "bob", 4);
    index.record("alice", "bob", 4);
    assert_eq!(index.count_sent("alice"), 1);
    assert_eq!(index.count_received("bob"), 1);
    index.record("alice", "carol", 4);
    assert_eq!(index.count_sent("alice"), 1);
    assert_eq!(index.count_received("carol"), 1);
}

#[test]
fn mail_to_oneself_is_indexed_on_both_sides() {
    let mut index = MailIndex::new();
    index.record("alice", "alice", 3);
    assert_eq!(index.sent_ids("alice"), vec![3]);
    assert_eq!(index.received_ids("alice"), vec![3]);
}

#[test]
fn contains_id_searches_the_whole_list() {
    let ids: Vec<u128> = vec![5, 1, 9];
    assert!(contains_id(&ids, 5));
    assert!(contains_id(&ids, 9));
    assert!(!contains_id(&ids, 2));
    assert!(!contains_id(&Vec::new(), 0));
}

#[test]
fn copy_ids_copies_in_order() {
    let ids: Vec<u128> = vec![5, 1, 9];
    assert_eq!(copy_ids(&ids), vec![5, 1, 9]);
    assert_eq!(copy_ids(&Vec::new()), Vec::<u128>::new());
}
