use nekoton::models::{Notification, Transaction, TransactionId, WalletError};
use nekoton::pending::PendingTransactionTracker;

fn hash_of(byte: u8) -> Vec<u8> {
    vec![byte; 32]
}

fn confirmation(msg_hash: Vec<u8>, lt: u64) -> Transaction {
    Transaction {
        id: TransactionId {
            lt,
            hash: hash_of(0xcc),
        },
        prev_id: None,
        in_msg_hash: msg_hash,
        created_at: 0,
    }
}

#[test]
fn register_tracks_one_entry() {
    let mut tracker = PendingTransactionTracker::new();
    let pt = tracker
        .register(hash_of(1), "addr".to_string(), 1060)
        .unwrap();
    assert_eq!(pt.message_hash, hash_of(1));
    assert_eq!(pt.src, "addr");
    assert_eq!(pt.expire_at, 1060);
    assert_eq!(tracker.len(), 1);
    assert!(tracker.contains(&hash_of(1)));
}

#[test]
fn register_twice_without_resolve_is_a_duplicate() {
    let mut tracker = PendingTransactionTracker::new();
    tracker
        .register(hash_of(1), "addr".to_string(), 1060)
        .unwrap();
    let second = tracker.register(hash_of(1), "addr".to_string(), 1100);
    assert_eq!(second.unwrap_err(), WalletError::DuplicateSubmission);
    assert_eq!(tracker.len(), 1);
}

#[test]
fn register_again_after_resolve_succeeds() {
    let mut tracker = PendingTransactionTracker::new();
    tracker
        .register(hash_of(1), "addr".to_string(), 1060)
        .unwrap();
    let n = tracker.resolve(&hash_of(1), Some(confirmation(hash_of(1), 5)));
    assert!(matches!(n, Some(Notification::MessageSent(_, Some(_)))));
    assert_eq!(tracker.len(), 0);
    assert!(tracker
        .register(hash_of(1), "addr".to_string(), 1200)
        .is_ok());
}

#[test]
fn resolve_unknown_hash_changes_nothing() {
    let mut tracker = PendingTransactionTracker::new();
    tracker
        .register(hash_of(1), "addr".to_string(), 1060)
        .unwrap();
    let n = tracker.resolve(&hash_of(2), Some(confirmation(hash_of(2), 5)));
    assert!(n.is_none());
    assert_eq!(tracker.len(), 1);
}

#[test]
fn resolve_without_transaction_reports_expiration() {
    let mut tracker = PendingTransactionTracker::new();
    tracker
        .register(hash_of(1), "addr".to_string(), 1060)
        .unwrap();
    let n = tracker.resolve(&hash_of(1), None);
    match n {
        Some(Notification::MessageExpired(pt)) => assert_eq!(pt.message_hash, hash_of(1)),
        other => panic!("unexpected notification: {:?}", other),
    }
}

#[test]
fn purge_expires_exactly_once() {
    let mut tracker = PendingTransactionTracker::new();
    tracker
        .register(hash_of(1), "addr".to_string(), 1060)
        .unwrap();
    tracker
        .register(hash_of(2), "addr".to_string(), 1100)
        .unwrap();
    let notices = tracker.purge_expired(1060);
    assert_eq!(notices.len(), 1);
    match &notices[0] {
        Notification::MessageExpired(pt) => assert_eq!(pt.message_hash, hash_of(1)),
        other => panic!("unexpected notification: {:?}", other),
    }
    assert_eq!(tracker.len(), 1);
    let again = tracker.purge_expired(1060);
    assert!(again.is_empty());
    assert_eq!(tracker.len(), 1);
}

#[test]
fn purge_before_expiry_keeps_everything() {
    let mut tracker = PendingTransactionTracker::new();
    tracker
        .register(hash_of(1), "addr".to_string(), 1060)
        .unwrap();
    let notices = tracker.purge_expired(1059);
    assert!(notices.is_empty());
    assert_eq!(tracker.len(), 1);
}

#[test]
fn resolve_all_matches_in_order() {
    let mut tracker = PendingTransactionTracker::new();
    tracker
        .register(hash_of(1), "a".to_string(), 1060)
        .unwrap();
    tracker
        .register(hash_of(2), "a".to_string(), 1070)
        .unwrap();
    let txs = vec![
        confirmation(hash_of(2), 10),
        confirmation(hash_of(9), 11),
        confirmation(hash_of(1), 12),
    ];
    let notices = tracker.resolve_all(txs);
    assert_eq!(notices.len(), 2);
    match (&notices[0], &notices[1]) {
        (Notification::MessageSent(p2, Some(t2)), Notification::MessageSent(p1, Some(t1))) => {
            assert_eq!(p2.message_hash, hash_of(2));
            assert_eq!(t2.id.lt, 10);
            assert_eq!(p1.message_hash, hash_of(1));
            assert_eq!(t1.id.lt, 12);
        }
        other => panic!("unexpected notifications: {:?}", other),
    }
    assert_eq!(tracker.len(), 0);
}
