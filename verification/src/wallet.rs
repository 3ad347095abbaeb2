//! The wallet subscription: a state machine that drives refresh and poll
//! cycles for one account. The network transport is an external
//! collaborator: the caller performs each transport call and hands its
//! outcome in as a plain value; the subscription decides what the outcome
//! means, updates its caches, and yields the notifications owed for the
//! cycle.

use vstd::prelude::*;

use crate::crypto::SignedMessage;
use crate::hexstr::{encode_hex, hex_of};
use crate::models::{
    AccountState, Block, copy_account_state, copy_bytes, copy_transactions, LatestBlock,
    Notification, PendingTransaction, pointer_eq, PollingMethod, same_account, same_pointer,
    same_tx_seq, Transaction, TransactionId, TransactionsBatchInfo, TransportFailure,
    WalletError,
};
use crate::pending::{
    contains_hash, distinct_hashes, expired_notices, live_after, PendingTransactionTracker,
    resolution_notices, resolved_pending, same_pending,
};

verus! {

/// Where the subscription stands in its lifecycle.
#[derive(Clone, Copy, Debug, PartialEq, Eq, Structural)]
pub enum SubscriptionState {
    /// Constructed; nothing fetched yet.
    Created,
    /// A first refresh is underway or awaiting a retry.
    Syncing,
    /// Synchronized; ready for a poll cycle.
    Idle,
    /// A poll cycle is underway or awaiting a retry.
    Polling,
    /// Disposed; only disposal remains valid.
    Closed,
}

/// What a refresh fetched from the transport: the replacement account
/// snapshot, the newly observed transactions, and the clock reading of the
/// latest observed block.
pub struct AccountUpdate {
    /// The account snapshot to replace the cache with.
    pub state: AccountState,
    /// Newly observed confirmed transactions, to match against pending
    /// submissions.
    pub new_transactions: Vec<Transaction>,
    /// Unix time of the latest observed block, for proactive expiration.
    pub utime: u32,
}

/// Whether a fetched snapshot differs from the cached one, judged by the
/// last-transaction pointer.
pub open spec fn snapshot_changed(cached: AccountState, fetched: AccountState) -> bool {
    !same_pointer(cached.last_transaction_id, fetched.last_transaction_id)
}

/// Whether replacing the cached snapshot by the fetched one would move the
/// last-transaction logical time backward; such a stale snapshot is never
/// applied.
pub open spec fn snapshot_stale(cached: AccountState, fetched: AccountState) -> bool {
    fetched.spec_last_lt() < cached.spec_last_lt()
}

/// Whether a transaction history is ordered by strictly descending logical
/// time, newest first.
pub open spec fn history_descending(s: Seq<Transaction>) -> bool {
    forall|i: int, j: int| 0 <= i < j < s.len() ==> s[i].id.lt > s[j].id.lt
}

/// A subscription to one account: its cached snapshot, its local
/// transaction history, its outstanding submissions, and its lifecycle
/// state.
pub struct TonWalletSubscription {
    state: SubscriptionState,
    address: String,
    public_key: Vec<u8>,
    polling_method: PollingMethod,
    account_state: AccountState,
    transactions: Vec<Transaction>,
    pending: PendingTransactionTracker,
}

impl TonWalletSubscription {
    /// The lifecycle state.
    pub closed spec fn spec_state(self) -> SubscriptionState {
        self.state
    }

    /// The account address.
    pub closed spec fn spec_address(self) -> Seq<char> {
        self.address@
    }

    /// The account's public key bytes.
    pub closed spec fn spec_public_key(self) -> Seq<u8> {
        self.public_key@
    }

    /// How the subscription is driven.
    pub closed spec fn spec_polling_method(self) -> PollingMethod {
        self.polling_method
    }

    /// The cached account snapshot.
    pub closed spec fn spec_account_state(self) -> AccountState {
        self.account_state
    }

    /// The local transaction history, newest first.
    pub closed spec fn spec_transactions(self) -> Seq<Transaction> {
        self.transactions@
    }

    /// The outstanding submissions.
    pub closed spec fn spec_pending(self) -> Seq<PendingTransaction> {
        self.pending@
    }

    /// Outstanding submissions carry distinct hashes and the history is
    /// ordered newest first.
    pub open spec fn wf(self) -> bool {
        &&& distinct_hashes(self.spec_pending())
        &&& history_descending(self.spec_transactions())
    }

    /// Whether the immutable identity of the subscription is unchanged:
    /// address, public key, and polling method.
    pub open spec fn same_identity(self, other: Self) -> bool {
        &&& self.spec_address() == other.spec_address()
        &&& self.spec_public_key() == other.spec_public_key()
        &&& self.spec_polling_method() == other.spec_polling_method()
    }

    /// Whether every cache is unchanged as well: account snapshot, history,
    /// and outstanding submissions.
    pub open spec fn same_caches(self, other: Self) -> bool {
        &&& self.same_identity(other)
        &&& self.spec_account_state() == other.spec_account_state()
        &&& self.spec_transactions() == other.spec_transactions()
        &&& self.spec_pending() == other.spec_pending()
    }

    /// A fresh subscription for one account: no snapshot, no history, no
    /// outstanding submission, lifecycle at its start. The polling method
    /// is a configuration input chosen by the caller per contract type.
    pub fn new(address: String, public_key: Vec<u8>, polling_method: PollingMethod) -> (r:
        TonWalletSubscription)
        ensures
            r.wf(),
            r.spec_state() == SubscriptionState::Created,
            r.spec_address() == address@,
            r.spec_public_key() == public_key@,
            r.spec_polling_method() == polling_method,
            r.spec_account_state().balance == 0,
            !r.spec_account_state().is_deployed,
            r.spec_account_state().last_transaction_id is None,
            r.spec_transactions() == Seq::<Transaction>::empty(),
            r.spec_pending() == Seq::<PendingTransaction>::empty(),
    {
        TonWalletSubscription {
            state: SubscriptionState::Created,
            address,
            public_key,
            polling_method,
            account_state: AccountState {
                balance: 0,
                is_deployed: false,
                last_transaction_id: None,
            },
            transactions: Vec::new(),
            pending: PendingTransactionTracker::new(),
        }
    }

    /// The cached account snapshot.
    pub fn account_state(&self) -> (r: &AccountState)
        ensures
            *r == self.spec_account_state(),
    {
        &self.account_state
    }

    /// The account address.
    pub fn address(&self) -> (r: String)
        ensures
            r@ == self.spec_address(),
    {
        self.address.clone()
    }

    /// The account's public key, rendered as lowercase hexadecimal.
    pub fn public_key(&self) -> (r: String)
        ensures
            r@ == hex_of(self.spec_public_key()),
    {
        encode_hex(&self.public_key)
    }

    /// Whether the account's contract is deployed. The full contract-state
    /// model lives upstream; this placeholder reads the deployment flag of
    /// the cached snapshot.
    pub fn get_contract_state(&self) -> (r: bool)
        ensures
            r == self.spec_account_state().is_deployed,
    {
        self.account_state.is_deployed
    }

    /// How the subscription is driven.
    pub fn polling_method(&self) -> (r: PollingMethod)
        ensures
            r == self.spec_polling_method(),
    {
        self.polling_method
    }

    /// The lifecycle state.
    pub fn state(&self) -> (r: SubscriptionState)
        ensures
            r == self.spec_state(),
    {
        self.state
    }

    /// How many submissions are outstanding.
    pub fn pending_count(&self) -> (r: usize)
        ensures
            r == self.spec_pending().len(),
    {
        self.pending.len()
    }

    /// Closes the subscription. Terminal: afterwards every operation fails
    /// with `Disposed`.
    pub fn dispose(&mut self)
        requires
            old(self).wf(),
        ensures
            final(self).wf(),
            final(self).spec_state() == SubscriptionState::Closed,
            final(self).same_caches(*old(self)),
    {
        self.state = SubscriptionState::Closed;
    }

    /// Interprets the outcome of a fee-estimation dry run. Read-only: it
    /// never touches the caches or the tracker. Fails with `Disposed` after
    /// disposal and `TransportError` when the transport failed; otherwise
    /// hands the estimated fee through.
    pub fn estimate_fees(&self, message: &SignedMessage, outcome: Result<u64, TransportFailure>)
        -> (r: Result<u64, WalletError>)
        ensures
            self.spec_state() == SubscriptionState::Closed ==> r == Err::<u64, WalletError>(
                WalletError::Disposed,
            ),
            self.spec_state() != SubscriptionState::Closed ==> r == (match outcome {
                Ok(fee) => Ok::<u64, WalletError>(fee),
                Err(_) => Err::<u64, WalletError>(WalletError::TransportError),
            }),
    {
        let _ = message;
        if matches!(self.state, SubscriptionState::Closed) {
            return Err(WalletError::Disposed);
        }
        match outcome {
            Ok(fee) => Ok(fee),
            Err(_) => Err(WalletError::TransportError),
        }
    }

    /// Interprets the outcome of fetching the transport's head cursor for
    /// this account's shard; used as the manual-mode polling input.
    pub fn get_latest_block(&self, outcome: Result<LatestBlock, TransportFailure>) -> (r: Result<
        LatestBlock,
        WalletError,
    >)
        ensures
            self.spec_state() == SubscriptionState::Closed ==> r
                == Err::<LatestBlock, WalletError>(WalletError::Disposed),
            self.spec_state() != SubscriptionState::Closed ==> (match outcome {
                Ok(b) => r == Ok::<LatestBlock, WalletError>(b),
                Err(_) => r == Err::<LatestBlock, WalletError>(WalletError::TransportError),
            }),
    {
        if matches!(self.state, SubscriptionState::Closed) {
            return Err(WalletError::Disposed);
        }
        match outcome {
            Ok(b) => Ok(b),
            Err(_) => Err(WalletError::TransportError),
        }
    }

    /// Interprets the outcome of waiting for a successor block: no
    /// successor within the timeout is the recoverable `BlockWaitTimeout`,
    /// and the caller may retry with a fresh cursor. Read-only: the
    /// lifecycle state is untouched either way.
    pub fn wait_for_next_block(&self, outcome: Result<Option<String>, TransportFailure>) -> (r:
        Result<String, WalletError>)
        ensures
            self.spec_state() == SubscriptionState::Closed ==> r == Err::<String, WalletError>(
                WalletError::Disposed,
            ),
            self.spec_state() != SubscriptionState::Closed ==> (match outcome {
                Ok(next) => match next {
                    Some(id) => r is Ok && r->Ok_0@ == id@,
                    None => r == Err::<String, WalletError>(WalletError::BlockWaitTimeout),
                },
                Err(_) => r == Err::<String, WalletError>(WalletError::TransportError),
            }),
    {
        if matches!(self.state, SubscriptionState::Closed) {
            return Err(WalletError::Disposed);
        }
        match outcome {
            Ok(Some(id)) => Ok(id),
            Ok(None) => Err(WalletError::BlockWaitTimeout),
            Err(_) => Err(WalletError::TransportError),
        }
    }

    /// Interprets the outcome of submitting a signed message. A transport
    /// rejection surfaces as `SubmissionRejected` with the tracker
    /// untouched; an acceptance registers a pending transaction keyed by
    /// the message hash, expiring when the message does, unless the hash is
    /// already outstanding (`DuplicateSubmission`, tracker untouched).
    pub fn send_message(
        &mut self,
        message: &SignedMessage,
        outcome: Result<(), TransportFailure>,
    ) -> (r: Result<PendingTransaction, WalletError>)
        requires
            old(self).wf(),
        ensures
            final(self).wf(),
            final(self).same_identity(*old(self)),
            final(self).spec_state() == old(self).spec_state(),
            final(self).spec_account_state() == old(self).spec_account_state(),
            final(self).spec_transactions() == old(self).spec_transactions(),
            old(self).spec_state() == SubscriptionState::Closed ==> {
                &&& r == Err::<PendingTransaction, WalletError>(WalletError::Disposed)
                &&& final(self).spec_pending() == old(self).spec_pending()
            },
            old(self).spec_state() != SubscriptionState::Closed && outcome is Err ==> {
                &&& r == Err::<PendingTransaction, WalletError>(WalletError::SubmissionRejected)
                &&& final(self).spec_pending() == old(self).spec_pending()
            },
            old(self).spec_state() != SubscriptionState::Closed && outcome is Ok ==> {
                &&& contains_hash(old(self).spec_pending(), message.hash@) ==> {
                    &&& r == Err::<PendingTransaction, WalletError>(
                        WalletError::DuplicateSubmission,
                    )
                    &&& final(self).spec_pending() == old(self).spec_pending()
                }
                &&& !contains_hash(old(self).spec_pending(), message.hash@) ==> {
                    &&& r is Ok
                    &&& r->Ok_0.message_hash@ == message.hash@
                    &&& r->Ok_0.src@ == old(self).spec_address()
                    &&& r->Ok_0.expire_at == message.expire_at
                    &&& final(self).spec_pending() == old(self).spec_pending().push(
                        final(self).spec_pending().last(),
                    )
                    &&& same_pending(final(self).spec_pending().last(), r->Ok_0)
                }
            },
    {
        if matches!(self.state, SubscriptionState::Closed) {
            return Err(WalletError::Disposed);
        }
        if outcome.is_err() {
            return Err(WalletError::SubmissionRejected);
        }
        let hash = copy_bytes(&message.hash);
        let src = self.address.clone();
        self.pending.register(hash, src, message.expire_at)
    }
}

/// The notifications owed by one poll cycle over the outstanding
/// submissions: the confirmations for the observed transactions, in order,
/// then the expirations measured at the observed block time.
pub open spec fn poll_notices(
    p: Seq<PendingTransaction>,
    txs: Seq<Transaction>,
    utime: u32,
) -> Seq<Notification> {
    resolution_notices(p, txs) + expired_notices(resolved_pending(p, txs), utime)
}

/// The submissions still outstanding after one poll cycle: those neither
/// confirmed by an observed transaction nor expired at the observed block
/// time.
pub open spec fn poll_pending(
    p: Seq<PendingTransaction>,
    txs: Seq<Transaction>,
    utime: u32,
) -> Seq<PendingTransaction> {
    live_after(resolved_pending(p, txs), utime)
}

/// The logical-time bound a preload starts from: the requested cursor,
/// tightened to the oldest locally known transaction.
pub open spec fn start_bound(history: Seq<Transaction>, from_lt: u64) -> u64 {
    if history.len() == 0 {
        from_lt
    } else if history.last().id.lt < from_lt {
        history.last().id.lt
    } else {
        from_lt
    }
}

/// The moving bound while filtering a preloaded batch: the logical time of
/// the last kept transaction, or the start bound before anything is kept.
pub open spec fn kept_bound(b0: u64, kept: Seq<Transaction>) -> u64 {
    if kept.len() == 0 {
        b0
    } else {
        kept.last().id.lt
    }
}

/// The transactions of a preloaded batch that extend the local history:
/// taken in order, each with a logical time strictly below the bound so
/// far, so the kept batch descends strictly below the start bound.
pub open spec fn preload_kept(batch: Seq<Transaction>, b0: u64) -> Seq<Transaction>
    decreases batch.len(),
{
    if batch.len() == 0 {
        Seq::empty()
    } else {
        let prefix = preload_kept(batch.drop_last(), b0);
        if batch.last().id.lt < kept_bound(b0, prefix) {
            prefix.push(batch.last())
        } else {
            prefix
        }
    }
}

/// A preloaded batch never reaches the start bound: what is kept descends
/// strictly and stays strictly below `b0`.
pub proof fn lemma_preload_kept_bounded(batch: Seq<Transaction>, b0: u64)
    ensures
        history_descending(preload_kept(batch, b0)),
        forall|k: int|
            0 <= k < preload_kept(batch, b0).len() ==> (#[trigger] preload_kept(batch, b0)[k]).id.lt
                < b0,
        kept_bound(b0, preload_kept(batch, b0)) <= b0,
    decreases batch.len(),
{
    if batch.len() == 0 {
    } else {
        lemma_preload_kept_bounded(batch.drop_last(), b0);
        let prefix = preload_kept(batch.drop_last(), b0);
        let out = preload_kept(batch, b0);
        if batch.last().id.lt < kept_bound(b0, prefix) {
            assert(out == prefix.push(batch.last()));
            assert forall|i: int, j: int| 0 <= i < j < out.len() implies out[i].id.lt
                > out[j].id.lt by {
                if j < out.len() - 1 {
                    assert(out[i] == prefix[i] && out[j] == prefix[j]);
                } else {
                    assert(out[j] == batch.last());
                    if i < prefix.len() - 1 {
                        assert(prefix[i].id.lt > prefix.last().id.lt);
                    }
                    assert(prefix[i].id.lt >= kept_bound(b0, prefix));
                }
            }
        }
    }
}

/// Confirmations come as confirmations and expirations as expirations: a
/// poll cycle over the outstanding submissions yields message resolutions
/// only. A state change can only lead the cycle's notifications, and found
/// transactions only follow a preload.
pub proof fn lemma_poll_cycle_kinds(p: Seq<PendingTransaction>, txs: Seq<Transaction>, utime: u32)
    ensures
        forall|k: int|
            0 <= k < poll_notices(p, txs, utime).len() ==> ((#[trigger] poll_notices(
                p,
                txs,
                utime,
            )[k]) is MessageSent || poll_notices(p, txs, utime)[k] is MessageExpired),
{
    lemma_resolution_notices_kinds(p, txs);
    let resolved = resolved_pending(p, txs);
    assert forall|k: int|
        0 <= k < expired_notices(resolved, utime).len() implies (#[trigger] expired_notices(
        resolved,
        utime,
    )[k]) is MessageExpired by {}
}

/// Every notification of a resolution pass is a confirmation.
proof fn lemma_resolution_notices_kinds(p: Seq<PendingTransaction>, txs: Seq<Transaction>)
    ensures
        forall|k: int|
            0 <= k < resolution_notices(p, txs).len() ==> (#[trigger] resolution_notices(
                p,
                txs,
            )[k]) is MessageSent,
    decreases txs.len(),
{
    if txs.len() == 0 {
    } else {
        lemma_resolution_notices_kinds(p, txs.drop_last());
    }
}

/// A passive observer of subscription lifecycle events, driven by the
/// subscription and never the reverse. Implementations are external; calls
/// are fire-and-forget notifications, not veto points.
pub trait TonWalletNotificationHandler {
    /// A pending submission was confirmed on chain.
    fn on_message_sent(
        &self,
        pending_transaction: PendingTransaction,
        transaction: Option<Transaction>,
    );

    /// A pending submission expired with no matching confirmation.
    fn on_message_expired(&self, pending_transaction: PendingTransaction);

    /// The account snapshot was replaced.
    fn on_state_changed(&self, new_state: AccountState);

    /// A batch of historical transactions was loaded.
    fn on_transactions_found(
        &self,
        transactions: Vec<Transaction>,
        batch_info: TransactionsBatchInfo,
    );
}

/// Delivers the notifications of one cycle to the handler, in order.
pub fn dispatch_notifications<H: TonWalletNotificationHandler>(
    handler: &H,
    notifications: Vec<Notification>,
) {
    let mut rest = notifications;
    while rest.len() > 0
        decreases rest@.len(),
    {
        let n = rest.remove(0);
        match n {
            Notification::StateChanged(s) => handler.on_state_changed(s),
            Notification::MessageSent(p, t) => handler.on_message_sent(p, t),
            Notification::MessageExpired(p) => handler.on_message_expired(p),
            Notification::TransactionsFound(txs, info) => handler.on_transactions_found(txs, info),
        }
    }
}

impl TonWalletSubscription {
    /// Interprets the outcome of fetching the current account state.
    ///
    /// After disposal the call fails with `Disposed`; a transport failure
    /// surfaces as `TransportError` and moves a fresh subscription to its
    /// first sync, holding position otherwise. A fetched snapshot is
    /// applied only when its last-transaction pointer differs from the
    /// cached one and does not move backward: then the snapshot replaces
    /// the cache, a state-change notification leads, the observed
    /// transactions resolve their pending submissions, and entries expired
    /// at the observed block time are purged. An unchanged or stale
    /// snapshot leaves everything as it was and yields no notification, so
    /// repeating a refresh on identical responses raises the state-change
    /// callback at most once. Either way the cached last-transaction
    /// logical time never decreases.
    pub fn refresh(&mut self, fetched: Result<AccountUpdate, TransportFailure>) -> (r: Result<
        Vec<Notification>,
        WalletError,
    >)
        requires
            old(self).wf(),
        ensures
            final(self).wf(),
            final(self).same_identity(*old(self)),
            final(self).spec_transactions() == old(self).spec_transactions(),
            old(self).spec_state() == SubscriptionState::Closed ==> {
                &&& r == Err::<Vec<Notification>, WalletError>(WalletError::Disposed)
                &&& final(self).same_caches(*old(self))
                &&& final(self).spec_state() == old(self).spec_state()
            },
            old(self).spec_state() != SubscriptionState::Closed && fetched is Err ==> {
                &&& r == Err::<Vec<Notification>, WalletError>(WalletError::TransportError)
                &&& final(self).same_caches(*old(self))
                &&& final(self).spec_state() == (if old(self).spec_state()
                    == SubscriptionState::Created {
                    SubscriptionState::Syncing
                } else {
                    old(self).spec_state()
                })
            },
            old(self).spec_state() != SubscriptionState::Closed && fetched is Ok ==> ({
                let u = fetched->Ok_0;
                &&& r is Ok
                &&& final(self).spec_state() == SubscriptionState::Idle
                &&& (!snapshot_changed(old(self).spec_account_state(), u.state)
                    || snapshot_stale(old(self).spec_account_state(), u.state)) ==> {
                    &&& r->Ok_0@ == Seq::<Notification>::empty()
                    &&& final(self).spec_account_state() == old(self).spec_account_state()
                    &&& final(self).spec_pending() == old(self).spec_pending()
                }
                &&& (snapshot_changed(old(self).spec_account_state(), u.state)
                    && !snapshot_stale(old(self).spec_account_state(), u.state)) ==> {
                    &&& same_account(final(self).spec_account_state(), u.state)
                    &&& final(self).spec_pending() == poll_pending(
                        old(self).spec_pending(),
                        u.new_transactions@,
                        u.utime,
                    )
                    &&& r->Ok_0@ == seq![Notification::StateChanged(u.state)] + poll_notices(
                        old(self).spec_pending(),
                        u.new_transactions@,
                        u.utime,
                    )
                }
                &&& final(self).spec_account_state().spec_last_lt() >= old(
                    self,
                ).spec_account_state().spec_last_lt()
            }),
    {
        if matches!(self.state, SubscriptionState::Closed) {
            return Err(WalletError::Disposed);
        }
        match fetched {
            Err(_) => {
                if matches!(self.state, SubscriptionState::Created) {
                    self.state = SubscriptionState::Syncing;
                }
                Err(WalletError::TransportError)
            },
            Ok(u) => {
                let changed = !pointer_eq(
                    &self.account_state.last_transaction_id,
                    &u.state.last_transaction_id,
                );
                let stale = u.state.last_lt() < self.account_state.last_lt();
                self.state = SubscriptionState::Idle;
                if !changed || stale {
                    return Ok(Vec::new());
                }
                let cache = copy_account_state(&u.state);
                self.account_state = cache;
                let mut out: Vec<Notification> = Vec::new();
                out.push(Notification::StateChanged(u.state));
                let mut confirmed = self.pending.resolve_all(u.new_transactions);
                let mut lapsed = self.pending.purge_expired(u.utime);
                out.append(&mut confirmed);
                out.append(&mut lapsed);
                proof {
                    assert(out@ =~= seq![Notification::StateChanged(u.state)] + poll_notices(
                        old(self).spec_pending(),
                        u.new_transactions@,
                        u.utime,
                    ));
                }
                Ok(out)
            },
        }
    }

    /// Interprets the outcome of fetching one block during a manual poll
    /// cycle: the account's transactions found in the block resolve their
    /// pending submissions, entries expired at the block's clock reading
    /// are purged, and the cycle returns to idle. A transport failure
    /// surfaces as `TransportError` with the poll position held; after
    /// disposal the call fails with `Disposed`. The cached snapshot and
    /// history are untouched either way.
    pub fn handle_block(&mut self, block: Result<Block, TransportFailure>) -> (r: Result<
        Vec<Notification>,
        WalletError,
    >)
        requires
            old(self).wf(),
        ensures
            final(self).wf(),
            final(self).same_identity(*old(self)),
            final(self).spec_transactions() == old(self).spec_transactions(),
            final(self).spec_account_state() == old(self).spec_account_state(),
            old(self).spec_state() == SubscriptionState::Closed ==> {
                &&& r == Err::<Vec<Notification>, WalletError>(WalletError::Disposed)
                &&& final(self).same_caches(*old(self))
                &&& final(self).spec_state() == old(self).spec_state()
            },
            old(self).spec_state() != SubscriptionState::Closed && block is Err ==> {
                &&& r == Err::<Vec<Notification>, WalletError>(WalletError::TransportError)
                &&& final(self).same_caches(*old(self))
                &&& final(self).spec_state() == SubscriptionState::Polling
            },
            old(self).spec_state() != SubscriptionState::Closed && block is Ok ==> ({
                let b = block->Ok_0;
                &&& r is Ok
                &&& final(self).spec_state() == SubscriptionState::Idle
                &&& final(self).spec_pending() == poll_pending(
                    old(self).spec_pending(),
                    b.transactions@,
                    b.gen_utime,
                )
                &&& r->Ok_0@ == poll_notices(old(self).spec_pending(), b.transactions@, b.gen_utime)
            }),
    {
        if matches!(self.state, SubscriptionState::Closed) {
            return Err(WalletError::Disposed);
        }
        match block {
            Err(_) => {
                self.state = SubscriptionState::Polling;
                Err(WalletError::TransportError)
            },
            Ok(b) => {
                let mut out = self.pending.resolve_all(b.transactions);
                let mut lapsed = self.pending.purge_expired(b.gen_utime);
                out.append(&mut lapsed);
                self.state = SubscriptionState::Idle;
                Ok(out)
            },
        }
    }

    /// Interprets the outcome of requesting one batch of historical
    /// transactions strictly older than `from`. What the batch adds to the
    /// local history is taken in order while the logical times descend
    /// strictly, starting strictly below the requested cursor (and below
    /// the oldest locally known transaction); nothing at or above the
    /// cursor's logical time is ever reported. The kept batch is appended
    /// to the history and reported through one found-transactions
    /// notification carrying the batch position: its size, its logical-time
    /// range, and whether it reaches the account's first transaction.
    pub fn preload_transactions(
        &mut self,
        from: &TransactionId,
        fetched: Result<Vec<Transaction>, TransportFailure>,
    ) -> (r: Result<Vec<Notification>, WalletError>)
        requires
            old(self).wf(),
        ensures
            final(self).wf(),
            final(self).same_identity(*old(self)),
            final(self).spec_account_state() == old(self).spec_account_state(),
            final(self).spec_pending() == old(self).spec_pending(),
            final(self).spec_state() == old(self).spec_state(),
            old(self).spec_state() == SubscriptionState::Closed ==> {
                &&& r == Err::<Vec<Notification>, WalletError>(WalletError::Disposed)
                &&& final(self).spec_transactions() == old(self).spec_transactions()
            },
            old(self).spec_state() != SubscriptionState::Closed && fetched is Err ==> {
                &&& r == Err::<Vec<Notification>, WalletError>(WalletError::TransportError)
                &&& final(self).spec_transactions() == old(self).spec_transactions()
            },
            old(self).spec_state() != SubscriptionState::Closed && fetched is Ok ==> ({
                let kept = preload_kept(
                    fetched->Ok_0@,
                    start_bound(old(self).spec_transactions(), from.lt),
                );
                &&& r is Ok
                &&& r->Ok_0@.len() == 1
                &&& r->Ok_0@[0] is TransactionsFound
                &&& same_tx_seq(r->Ok_0@[0]->TransactionsFound_0@, kept)
                &&& (forall|k: int|
                    0 <= k < r->Ok_0@[0]->TransactionsFound_0@.len() ==> (
                    #[trigger] r->Ok_0@[0]->TransactionsFound_0@[k]).id.lt < from.lt)
                &&& final(self).spec_transactions() == old(self).spec_transactions() + kept
                &&& ({
                    let info = r->Ok_0@[0]->TransactionsFound_1;
                    &&& info.batch_len == kept.len()
                    &&& info.reaches_first == (kept.len() > 0 && kept.last().prev_id is None)
                    &&& info.min_lt == (if kept.len() == 0 {
                        0u64
                    } else {
                        kept.last().id.lt
                    })
                    &&& info.max_lt == (if kept.len() == 0 {
                        0u64
                    } else {
                        kept[0].id.lt
                    })
                })
            }),
    {
        if matches!(self.state, SubscriptionState::Closed) {
            return Err(WalletError::Disposed);
        }
        match fetched {
            Err(_) => Err(WalletError::TransportError),
            Ok(batch) => {
                let b0: u64 = if self.transactions.len() == 0 {
                    from.lt
                } else {
                    let oldest = self.transactions[self.transactions.len() - 1].id.lt;
                    if oldest < from.lt {
                        oldest
                    } else {
                        from.lt
                    }
                };
                proof {
                    assert(b0 == start_bound(old(self).spec_transactions(), from.lt));
                }
                let ghost all = batch@;
                let mut rest = batch;
                let mut kept: Vec<Transaction> = Vec::new();
                let mut bound: u64 = b0;
                let ghost mut done: Seq<Transaction> = Seq::empty();
                proof {
                    assert(all =~= done + rest@);
                }
                while rest.len() > 0
                    invariant
                        all == done + rest@,
                        kept@ == preload_kept(done, b0),
                        bound == kept_bound(b0, kept@),
                    decreases rest@.len(),
                {
                    let ghost pre = rest@;
                    let t = rest.remove(0);
                    proof {
                        let prev_done = done;
                        done = done.push(t);
                        assert(pre =~= seq![t] + rest@);
                        assert(all =~= done + rest@) by {
                            assert(prev_done + (seq![t] + rest@) =~= prev_done.push(t) + rest@);
                        }
                        assert(done.drop_last() =~= prev_done);
                        assert(done.last() == t);
                    }
                    if t.id.lt < bound {
                        bound = t.id.lt;
                        kept.push(t);
                    }
                }
                proof {
                    assert(all =~= done);
                }
                let batch_len = kept.len();
                let mut min_lt: u64 = 0;
                let mut max_lt: u64 = 0;
                let mut reaches_first = false;
                if kept.len() > 0 {
                    min_lt = kept[kept.len() - 1].id.lt;
                    max_lt = kept[0].id.lt;
                    reaches_first = matches!(kept[kept.len() - 1].prev_id, Option::None);
                }
                let info = TransactionsBatchInfo { batch_len, min_lt, max_lt, reaches_first };
                let shown = copy_transactions(&kept);
                let ghost keptg = kept@;
                proof {
                    lemma_preload_kept_bounded(all, b0);
                    assert(b0 <= from.lt);
                }
                let mut tail = kept;
                self.transactions.append(&mut tail);
                proof {
                    let oldh = old(self).spec_transactions();
                    let newh = self.spec_transactions();
                    assert(newh == oldh + keptg);
                    assert forall|i: int, j: int| 0 <= i < j < newh.len() implies newh[i].id.lt
                        > newh[j].id.lt by {
                        if j < oldh.len() {
                            assert(newh[i] == oldh[i] && newh[j] == oldh[j]);
                        } else if i >= oldh.len() {
                            assert(newh[i] == keptg[i - oldh.len()]);
                            assert(newh[j] == keptg[j - oldh.len()]);
                        } else {
                            assert(newh[i] == oldh[i]);
                            assert(newh[j] == keptg[j - oldh.len()]);
                            assert(keptg[j - oldh.len()].id.lt < b0);
                            if i < oldh.len() - 1 {
                                assert(oldh[i].id.lt > oldh[oldh.len() - 1].id.lt);
                            }
                        }
                    }
                    assert forall|k: int| 0 <= k < shown@.len() implies (
                    #[trigger] shown@[k]).id.lt < from.lt by {
                        assert(crate::models::same_tx(shown@[k], keptg[k]));
                        assert(keptg[k].id.lt < b0);
                    }
                }
                let mut out: Vec<Notification> = Vec::new();
                out.push(Notification::TransactionsFound(shown, info));
                Ok(out)
            },
        }
    }
}

} // verus!
