use std::cell::RefCell;

use nekoton::crypto::UnsignedMessage;
use nekoton::models::{
    AccountState, Block, LatestBlock, Notification, Transaction, TransactionId,
    TransportFailure, WalletError,
};
use nekoton::wallet::{
    dispatch_notifications, AccountUpdate, SubscriptionState, TonWalletNotificationHandler,
    TonWalletSubscription,
};

fn hash_of(byte: u8) -> Vec<u8> {
    vec![byte; 32]
}

fn new_subscription() -> TonWalletSubscription {
    TonWalletSubscription::new(
        "0:wallet".to_string(),
        (0u8..32u8).collect(),
        nekoton::models::PollingMethod::Manual,
    )
}

fn signed_message(msg_hash: Vec<u8>, now: u32, timeout: u32) -> nekoton::crypto::SignedMessage {
    UnsignedMessage::new(vec![1, 2, 3], msg_hash, now, timeout)
        .sign(&vec![0x11; 64])
        .unwrap()
}

fn confirmation(msg_hash: Vec<u8>, lt: u64) -> Transaction {
    Transaction {
        id: TransactionId {
            lt,
            hash: hash_of(0xcc),
        },
        prev_id: None,
        in_msg_hash: msg_hash,
        created_at: 0,
    }
}

fn update_with_pointer(lt: u64, utime: u32, txs: Vec<Transaction>) -> AccountUpdate {
    AccountUpdate {
        state: AccountState {
            balance: 500,
            is_deployed: true,
            last_transaction_id: Some(TransactionId {
                lt,
                hash: hash_of(0xaa),
            }),
        },
        new_transactions: txs,
        utime,
    }
}

#[test]
fn scenario_confirmed_before_expiry() {
    // Send at now = 1000 with a sixty-second window; a matching confirmed
    // transaction arrives thirty seconds later.
    let mut sub = new_subscription();
    let msg = signed_message(hash_of(1), 1000, 60);
    sub.send_message(&msg, Ok(())).unwrap();
    let block = Block {
        gen_utime: 1030,
        transactions: vec![confirmation(hash_of(1), 42)],
    };
    let notices = sub.handle_block(Ok(block)).unwrap();
    let sent = notices
        .iter()
        .filter(|n| matches!(n, Notification::MessageSent(_, _)))
        .count();
    let expired = notices
        .iter()
        .filter(|n| matches!(n, Notification::MessageExpired(_)))
        .count();
    assert_eq!(sent, 1);
    assert_eq!(expired, 0);
    assert_eq!(sub.pending_count(), 0);
}

#[test]
fn scenario_expired_without_confirmation() {
    // Same send, but the clock passes the expiration with no match.
    let mut sub = new_subscription();
    let msg = signed_message(hash_of(1), 1000, 60);
    sub.send_message(&msg, Ok(())).unwrap();
    let block = Block {
        gen_utime: 1061,
        transactions: vec![],
    };
    let notices = sub.handle_block(Ok(block)).unwrap();
    let sent = notices
        .iter()
        .filter(|n| matches!(n, Notification::MessageSent(_, _)))
        .count();
    let expired = notices
        .iter()
        .filter(|n| matches!(n, Notification::MessageExpired(_)))
        .count();
    assert_eq!(sent, 0);
    assert_eq!(expired, 1);
    assert_eq!(sub.pending_count(), 0);
}

#[test]
fn scenario_repeated_refresh_notifies_once() {
    // Two refreshes with identical transport responses: the state-change
    // callback fires at most once.
    let mut sub = new_subscription();
    let first = sub.refresh(Ok(update_with_pointer(7, 1000, vec![]))).unwrap();
    let changed_first = first
        .iter()
        .filter(|n| matches!(n, Notification::StateChanged(_)))
        .count();
    assert_eq!(changed_first, 1);
    let second = sub.refresh(Ok(update_with_pointer(7, 1000, vec![]))).unwrap();
    assert!(second.is_empty());
    assert_eq!(sub.state(), SubscriptionState::Idle);
}

#[test]
fn scenario_block_wait_timeout_keeps_state() {
    // A wait that never sees a successor fails with the timeout error and
    // the subscription stays idle.
    let mut sub = new_subscription();
    sub.refresh(Ok(update_with_pointer(7, 1000, vec![]))).unwrap();
    assert_eq!(sub.state(), SubscriptionState::Idle);
    let r = sub.wait_for_next_block(Ok(None));
    assert_eq!(r.unwrap_err(), WalletError::BlockWaitTimeout);
    assert_eq!(sub.state(), SubscriptionState::Idle);
}

#[test]
fn refresh_never_moves_last_lt_backward() {
    let mut sub = new_subscription();
    sub.refresh(Ok(update_with_pointer(7, 1000, vec![]))).unwrap();
    let stale = sub.refresh(Ok(update_with_pointer(3, 1001, vec![]))).unwrap();
    assert!(stale.is_empty());
    assert_eq!(
        sub.account_state().last_transaction_id.as_ref().unwrap().lt,
        7
    );
}

#[test]
fn refresh_transport_error_holds_position() {
    let mut sub = new_subscription();
    assert_eq!(sub.state(), SubscriptionState::Created);
    let r = sub.refresh(Err(TransportFailure));
    assert_eq!(r.unwrap_err(), WalletError::TransportError);
    assert_eq!(sub.state(), SubscriptionState::Syncing);
    let r2 = sub.refresh(Err(TransportFailure));
    assert_eq!(r2.unwrap_err(), WalletError::TransportError);
    assert_eq!(sub.state(), SubscriptionState::Syncing);
}

#[test]
fn send_rejected_registers_nothing() {
    let mut sub = new_subscription();
    let msg = signed_message(hash_of(1), 1000, 60);
    let r = sub.send_message(&msg, Err(TransportFailure));
    assert_eq!(r.unwrap_err(), WalletError::SubmissionRejected);
    assert_eq!(sub.pending_count(), 0);
}

#[test]
fn send_twice_is_a_duplicate() {
    let mut sub = new_subscription();
    let msg = signed_message(hash_of(1), 1000, 60);
    let pt = sub.send_message(&msg, Ok(())).unwrap();
    assert_eq!(pt.message_hash, hash_of(1));
    assert_eq!(pt.src, "0:wallet");
    assert_eq!(pt.expire_at, 1060);
    let again = sub.send_message(&msg, Ok(()));
    assert_eq!(again.unwrap_err(), WalletError::DuplicateSubmission);
    assert_eq!(sub.pending_count(), 1);
}

#[test]
fn disposed_subscription_refuses_operations() {
    let mut sub = new_subscription();
    sub.dispose();
    assert_eq!(sub.state(), SubscriptionState::Closed);
    let msg = signed_message(hash_of(1), 1000, 60);
    assert_eq!(
        sub.send_message(&msg, Ok(())).unwrap_err(),
        WalletError::Disposed
    );
    assert_eq!(
        sub.refresh(Ok(update_with_pointer(7, 1000, vec![]))).unwrap_err(),
        WalletError::Disposed
    );
    assert_eq!(
        sub.estimate_fees(&msg, Ok(10)).unwrap_err(),
        WalletError::Disposed
    );
    assert_eq!(
        sub.wait_for_next_block(Ok(Some("b".to_string()))).unwrap_err(),
        WalletError::Disposed
    );
}

#[test]
fn estimate_fees_is_read_only() {
    let sub = new_subscription();
    let msg = signed_message(hash_of(1), 1000, 60);
    assert_eq!(sub.estimate_fees(&msg, Ok(12345)).unwrap(), 12345);
    assert_eq!(
        sub.estimate_fees(&msg, Err(TransportFailure)).unwrap_err(),
        WalletError::TransportError
    );
}

#[test]
fn get_latest_block_passes_cursor_through() {
    let sub = new_subscription();
    let b = LatestBlock {
        id: "block-1".to_string(),
        end_lt: 1234567890123,
        gen_utime: 77,
    };
    let got = sub.get_latest_block(Ok(b)).unwrap();
    assert_eq!(got.id(), "block-1");
    assert_eq!(got.end_lt(), "1234567890123");
    assert_eq!(got.gen_utime(), 77);
    assert_eq!(
        sub.get_latest_block(Err(TransportFailure)).unwrap_err(),
        WalletError::TransportError
    );
}

#[test]
fn wait_for_next_block_returns_successor() {
    let sub = new_subscription();
    let r = sub.wait_for_next_block(Ok(Some("next-block".to_string())));
    assert_eq!(r.unwrap(), "next-block");
    assert_eq!(
        sub.wait_for_next_block(Err(TransportFailure)).unwrap_err(),
        WalletError::TransportError
    );
}

#[test]
fn handle_block_transport_error_holds_polling() {
    let mut sub = new_subscription();
    let r = sub.handle_block(Err(TransportFailure));
    assert_eq!(r.unwrap_err(), WalletError::TransportError);
    assert_eq!(sub.state(), SubscriptionState::Polling);
}

#[test]
fn preload_never_returns_cursor_or_newer() {
    let mut sub = new_subscription();
    let from = TransactionId {
        lt: 100,
        hash: hash_of(0xaa),
    };
    let batch = vec![
        confirmation(hash_of(9), 90),
        confirmation(hash_of(9), 95),
        confirmation(hash_of(9), 80),
        confirmation(hash_of(9), 100),
        Transaction {
            id: TransactionId {
                lt: 70,
                hash: hash_of(0xcc),
            },
            prev_id: None,
            in_msg_hash: hash_of(9),
            created_at: 0,
        },
    ];
    let notices = sub.preload_transactions(&from, Ok(batch)).unwrap();
    assert_eq!(notices.len(), 1);
    match &notices[0] {
        Notification::TransactionsFound(txs, info) => {
            let lts: Vec<u64> = txs.iter().map(|t| t.id.lt).collect();
            assert_eq!(lts, vec![90, 80, 70]);
            assert!(txs.iter().all(|t| t.id.lt < from.lt));
            assert_eq!(info.batch_len, 3);
            assert_eq!(info.max_lt, 90);
            assert_eq!(info.min_lt, 70);
            assert!(info.reaches_first);
        }
        other => panic!("unexpected notification: {:?}", other),
    }
}

#[test]
fn preload_continues_below_local_history() {
    let mut sub = new_subscription();
    let from = TransactionId {
        lt: 100,
        hash: hash_of(0xaa),
    };
    sub.preload_transactions(&from, Ok(vec![confirmation(hash_of(9), 90)]))
        .unwrap();
    // A second page repeats the already known transaction; only strictly
    // older ones extend the history.
    let notices = sub
        .preload_transactions(&from, Ok(vec![confirmation(hash_of(9), 90), confirmation(hash_of(9), 50)]))
        .unwrap();
    match &notices[0] {
        Notification::TransactionsFound(txs, _) => {
            let lts: Vec<u64> = txs.iter().map(|t| t.id.lt).collect();
            assert_eq!(lts, vec![50]);
        }
        other => panic!("unexpected notification: {:?}", other),
    }
}

struct RecordingHandler {
    events: RefCell<Vec<String>>,
}

impl TonWalletNotificationHandler for RecordingHandler {
    fn on_message_sent(
        &self,
        pending_transaction: nekoton::models::PendingTransaction,
        transaction: Option<Transaction>,
    ) {
        self.events.borrow_mut().push(format!(
            "sent:{}:{}",
            pending_transaction.expire_at,
            transaction.is_some()
        ));
    }

    fn on_message_expired(&self, pending_transaction: nekoton::models::PendingTransaction) {
        self.events
            .borrow_mut()
            .push(format!("expired:{}", pending_transaction.expire_at));
    }

    fn on_state_changed(&self, new_state: AccountState) {
        self.events
            .borrow_mut()
            .push(format!("state:{}", new_state.balance));
    }

    fn on_transactions_found(
        &self,
        transactions: Vec<Transaction>,
        batch_info: nekoton::models::TransactionsBatchInfo,
    ) {
        self.events.borrow_mut().push(format!(
            "found:{}:{}",
            transactions.len(),
            batch_info.batch_len
        ));
    }
}

#[test]
fn dispatch_delivers_in_cycle_order() {
    let mut sub = new_subscription();
    let msg = signed_message(hash_of(1), 1000, 60);
    sub.send_message(&msg, Ok(())).unwrap();
    let notices = sub
        .refresh(Ok(update_with_pointer(
            7,
            2000,
            vec![confirmation(hash_of(1), 7)],
        )))
        .unwrap();
    let handler = RecordingHandler {
        events: RefCell::new(Vec::new()),
    };
    dispatch_notifications(&handler, notices);
    let events = handler.events.borrow();
    assert_eq!(events.as_slice(), &["state:500".to_string(), "sent:1060:true".to_string()]);
}

#[test]
fn subscription_getters() {
    let sub = new_subscription();
    assert_eq!(sub.address(), "0:wallet");
    assert_eq!(
        sub.public_key(),
        "000102030405060708090a0b0c0d0e0f101112131415161718191a1b1c1d1e1f"
    );
    assert_eq!(
        sub.polling_method(),
        nekoton::models::PollingMethod::Manual
    );
    assert!(!sub.get_contract_state());
    assert_eq!(sub.account_state().balance, 0);
    assert_eq!(sub.pending_count(), 0);
}

#[test]
fn handle_block_resolves_and_expires_in_one_cycle() {
    let mut sub = new_subscription();
    let confirmed = signed_message(hash_of(1), 1000, 60);
    let forgotten = signed_message(hash_of(2), 1000, 30);
    sub.send_message(&confirmed, Ok(())).unwrap();
    sub.send_message(&forgotten, Ok(())).unwrap();
    let block = Block {
        gen_utime: 1040,
        transactions: vec![confirmation(hash_of(1), 42)],
    };
    let notices = sub.handle_block(Ok(block)).unwrap();
    assert_eq!(notices.len(), 2);
    assert!(matches!(&notices[0], Notification::MessageSent(pt, Some(_)) if pt.message_hash == hash_of(1)));
    assert!(matches!(&notices[1], Notification::MessageExpired(pt) if pt.message_hash == hash_of(2)));
    assert_eq!(sub.pending_count(), 0);
}

#[test]
fn expiration_fires_at_the_boundary_block_time() {
    let mut sub = new_subscription();
    let msg = signed_message(hash_of(1), 1000, 60);
    sub.send_message(&msg, Ok(())).unwrap();
    let block = Block {
        gen_utime: 1060,
        transactions: vec![],
    };
    let notices = sub.handle_block(Ok(block)).unwrap();
    assert_eq!(notices.len(), 1);
    assert!(matches!(&notices[0], Notification::MessageExpired(_)));
}

#[test]
fn preload_with_empty_batch_reports_an_empty_position() {
    let mut sub = new_subscription();
    let from = TransactionId {
        lt: 100,
        hash: hash_of(0xaa),
    };
    let notices = sub.preload_transactions(&from, Ok(vec![])).unwrap();
    assert_eq!(notices.len(), 1);
    match &notices[0] {
        Notification::TransactionsFound(txs, info) => {
            assert!(txs.is_empty());
            assert_eq!(info.batch_len, 0);
            assert_eq!(info.min_lt, 0);
            assert_eq!(info.max_lt, 0);
            assert!(!info.reaches_first);
        }
        other => panic!("unexpected notification: {:?}", other),
    }
}

#[test]
fn preload_transport_error_leaves_history_unchanged() {
    let mut sub = new_subscription();
    let from = TransactionId {
        lt: 100,
        hash: hash_of(0xaa),
    };
    sub.preload_transactions(&from, Ok(vec![confirmation(hash_of(9), 90)]))
        .unwrap();
    let r = sub.preload_transactions(&from, Err(TransportFailure));
    assert_eq!(r.unwrap_err(), WalletError::TransportError);
    let again = sub
        .preload_transactions(&from, Ok(vec![confirmation(hash_of(9), 80)]))
        .unwrap();
    match &again[0] {
        Notification::TransactionsFound(txs, _) => {
            assert_eq!(txs.len(), 1);
            assert_eq!(txs[0].id.lt, 80);
        }
        other => panic!("unexpected notification: {:?}", other),
    }
}
