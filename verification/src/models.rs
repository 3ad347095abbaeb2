//! Value objects shared by the wallet core: transaction identifiers,
//! account snapshots, pending submissions, polling cursors, notifications,
//! and the error taxonomy.

use vstd::prelude::*;

verus! {

/// Why a wallet operation failed.
///
/// Expiration of a pending message is not listed here: it is a normal
/// terminal outcome, reported through a notification instead.
#[derive(Clone, Copy, Debug, PartialEq, Eq, Structural)]
pub enum WalletError {
    /// The signature provider rejected the request or handed back
    /// malformed material.
    SigningFailed,
    /// The transport refused the submitted message; nothing was registered.
    SubmissionRejected,
    /// No successor block appeared within the requested timeout;
    /// the caller may retry with a fresh cursor.
    BlockWaitTimeout,
    /// A generic transport failure on a fetch; the state machine holds its
    /// position for a caller-driven retry.
    TransportError,
    /// A second registration for a message hash that is still pending.
    DuplicateSubmission,
    /// The subscription was closed; only disposal is valid afterwards.
    Disposed,
}

/// The transport could not complete a call; details stay with the transport.
#[derive(Clone, Copy, Debug, PartialEq, Eq, Structural)]
pub struct TransportFailure;

/// Position of a confirmed transaction in the account's history.
#[derive(Clone, Debug)]
pub struct TransactionId {
    /// Logical time; strictly increasing along the account's history.
    pub lt: u64,
    /// Hash of the transaction, thirty-two bytes.
    pub hash: Vec<u8>,
}

/// Whether two transaction identifiers denote the same position.
pub open spec fn same_tid(a: TransactionId, b: TransactionId) -> bool {
    a.lt == b.lt && a.hash@ == b.hash@
}

/// Whether two optional transaction pointers agree.
pub open spec fn same_pointer(a: Option<TransactionId>, b: Option<TransactionId>) -> bool {
    match (a, b) {
        (Option::None, Option::None) => true,
        (Option::Some(x), Option::Some(y)) => same_tid(x, y),
        _ => false,
    }
}

/// A confirmed on-chain transaction, as observed through the transport.
#[derive(Clone, Debug)]
pub struct Transaction {
    /// Where this transaction sits in the account's history.
    pub id: TransactionId,
    /// The previous transaction of the account, if any; `None` marks the
    /// account's first transaction.
    pub prev_id: Option<TransactionId>,
    /// Hash of the incoming message that produced this transaction; used to
    /// correlate a confirmation with a pending submission.
    pub in_msg_hash: Vec<u8>,
    /// Unix time at which the transaction was committed.
    pub created_at: u32,
}

/// A snapshot of the account, replaced wholesale on each successful refresh.
#[derive(Clone, Debug)]
pub struct AccountState {
    /// Current balance.
    pub balance: u64,
    /// Whether the account's contract is deployed.
    pub is_deployed: bool,
    /// Pointer to the most recent confirmed transaction, if any.
    pub last_transaction_id: Option<TransactionId>,
}

impl AccountState {
    /// Logical time of the last confirmed transaction; zero when the account
    /// has none yet.
    pub open spec fn spec_last_lt(self) -> int {
        match self.last_transaction_id {
            Option::Some(id) => id.lt as int,
            Option::None => 0,
        }
    }
}

/// A submitted signed message that is neither confirmed nor expired yet.
#[derive(Clone, Debug)]
pub struct PendingTransaction {
    /// Hash of the submitted message; at most one pending entry carries a
    /// given hash at any time.
    pub message_hash: Vec<u8>,
    /// Address of the sending account.
    pub src: String,
    /// Unix time after which the submission can no longer be confirmed.
    pub expire_at: u32,
}

/// The transport's head cursor for the account's shard.
#[derive(Clone, Debug)]
pub struct LatestBlock {
    /// Block identifier.
    pub id: String,
    /// Logical time at the end of the block.
    pub end_lt: u64,
    /// Unix time at which the block was generated.
    pub gen_utime: u32,
}

/// A block fetched by identifier: its clock reading and the account's
/// transactions found in it.
#[derive(Clone, Debug)]
pub struct Block {
    /// Unix time at which the block was generated.
    pub gen_utime: u32,
    /// Transactions of the subscribed account committed in this block.
    pub transactions: Vec<Transaction>,
}

/// How the subscription is driven: by caller-supplied block identifiers or
/// by resolving its own next block.
#[derive(Clone, Copy, Debug, PartialEq, Eq, Structural)]
pub enum PollingMethod {
    /// The caller supplies block identifiers.
    Manual,
    /// The subscription resolves its own successor blocks.
    Reliable,
}

/// Position of one preloaded batch within the account's history.
#[derive(Clone, Debug)]
pub struct TransactionsBatchInfo {
    /// Number of transactions in the batch.
    pub batch_len: usize,
    /// Smallest logical time in the batch; zero for an empty batch.
    pub min_lt: u64,
    /// Largest logical time in the batch; zero for an empty batch.
    pub max_lt: u64,
    /// Whether the batch reaches the account's first transaction.
    pub reaches_first: bool,
}

/// One observer callback raised by a polling cycle, in the order produced:
/// a state change first, then message resolutions, then found transactions.
#[derive(Clone, Debug)]
pub enum Notification {
    /// The account snapshot was replaced.
    StateChanged(AccountState),
    /// A pending submission was confirmed on chain.
    MessageSent(PendingTransaction, Option<Transaction>),
    /// A pending submission expired with no matching confirmation.
    MessageExpired(PendingTransaction),
    /// A batch of historical transactions was loaded.
    TransactionsFound(Vec<Transaction>, TransactionsBatchInfo),
}

impl LatestBlock {
    /// The block identifier.
    pub fn id(&self) -> (r: String)
        ensures
            r@ == self.id@,
    {
        self.id.clone()
    }

    /// The logical time at the end of the block, rendered in decimal.
    pub fn end_lt(&self) -> (r: String)
        ensures
            r@ == crate::decimal::dec_of(self.end_lt as int),
    {
        crate::decimal::u64_to_dec(self.end_lt)
    }

    /// The unix time at which the block was generated.
    pub fn gen_utime(&self) -> (r: u32)
        ensures
            r == self.gen_utime,
    {
        self.gen_utime
    }
}

/// Byte-string equality, element by element.
pub fn bytes_eq(a: &Vec<u8>, b: &Vec<u8>) -> (r: bool)
    ensures
        r == (a@ == b@),
{
    if a.len() != b.len() {
        assert(a@ != b@) by {
            assert(a@.len() != b@.len());
        }
        return false;
    }
    let n = a.len();
    let mut i: usize = 0;
    while i < n
        invariant
            n == a@.len() == b@.len(),
            i <= n,
            forall|j: int| 0 <= j < i ==> a@[j] == b@[j],
        decreases n - i,
    {
        if a[i] != b[i] {
            return false;
        }
        i += 1;
    }
    proof {
        assert(a@ =~= b@);
    }
    true
}

/// A copy of a byte string.
pub fn copy_bytes(src: &Vec<u8>) -> (r: Vec<u8>)
    ensures
        r@ == src@,
{
    let n = src.len();
    let mut r: Vec<u8> = Vec::new();
    let mut i: usize = 0;
    while i < n
        invariant
            n == src@.len(),
            i <= n,
            r@ =~= src@.take(i as int),
        decreases n - i,
    {
        r.push(src[i]);
        i += 1;
    }
    proof {
        assert(src@.take(n as int) =~= src@);
    }
    r
}

/// Whether two transactions record the same confirmed event.
pub open spec fn same_tx(a: Transaction, b: Transaction) -> bool {
    &&& same_tid(a.id, b.id)
    &&& same_pointer(a.prev_id, b.prev_id)
    &&& a.in_msg_hash@ == b.in_msg_hash@
    &&& a.created_at == b.created_at
}

/// Whether two transaction sequences record the same events, in order.
pub open spec fn same_tx_seq(a: Seq<Transaction>, b: Seq<Transaction>) -> bool {
    &&& a.len() == b.len()
    &&& forall|i: int| 0 <= i < a.len() ==> same_tx(#[trigger] a[i], b[i])
}

/// Whether two account snapshots agree: balance, deployment flag, and
/// last-transaction pointer.
pub open spec fn same_account(a: AccountState, b: AccountState) -> bool {
    &&& a.balance == b.balance
    &&& a.is_deployed == b.is_deployed
    &&& same_pointer(a.last_transaction_id, b.last_transaction_id)
}

/// A copy of a transaction identifier.
pub fn copy_tid(t: &TransactionId) -> (r: TransactionId)
    ensures
        same_tid(r, *t),
{
    TransactionId { lt: t.lt, hash: copy_bytes(&t.hash) }
}

/// A copy of an optional transaction pointer.
pub fn copy_pointer(t: &Option<TransactionId>) -> (r: Option<TransactionId>)
    ensures
        same_pointer(r, *t),
{
    match t {
        Option::None => None,
        Option::Some(id) => Some(copy_tid(id)),
    }
}

/// A copy of a transaction record.
pub fn copy_transaction(t: &Transaction) -> (r: Transaction)
    ensures
        same_tx(r, *t),
{
    Transaction {
        id: copy_tid(&t.id),
        prev_id: copy_pointer(&t.prev_id),
        in_msg_hash: copy_bytes(&t.in_msg_hash),
        created_at: t.created_at,
    }
}

/// A copy of a transaction list, element by element.
pub fn copy_transactions(v: &Vec<Transaction>) -> (r: Vec<Transaction>)
    ensures
        same_tx_seq(r@, v@),
{
    let n = v.len();
    let mut r: Vec<Transaction> = Vec::new();
    let mut i: usize = 0;
    while i < n
        invariant
            n == v@.len(),
            i <= n,
            r@.len() == i,
            forall|j: int| 0 <= j < i ==> same_tx(#[trigger] r@[j], v@[j]),
        decreases n - i,
    {
        let c = copy_transaction(&v[i]);
        r.push(c);
        i += 1;
    }
    r
}

/// A copy of an account snapshot.
pub fn copy_account_state(s: &AccountState) -> (r: AccountState)
    ensures
        same_account(r, *s),
{
    AccountState {
        balance: s.balance,
        is_deployed: s.is_deployed,
        last_transaction_id: copy_pointer(&s.last_transaction_id),
    }
}

impl AccountState {
    /// The logical time of the last confirmed transaction, zero when the
    /// account has none.
    pub fn last_lt(&self) -> (r: u64)
        ensures
            r as int == self.spec_last_lt(),
    {
        match &self.last_transaction_id {
            Option::Some(id) => id.lt,
            Option::None => 0,
        }
    }
}

/// Equality of transaction identifiers, by logical time and hash.
pub fn tid_eq(a: &TransactionId, b: &TransactionId) -> (r: bool)
    ensures
        r == same_tid(*a, *b),
{
    a.lt == b.lt && bytes_eq(&a.hash, &b.hash)
}

/// Equality of optional transaction pointers.
pub fn pointer_eq(a: &Option<TransactionId>, b: &Option<TransactionId>) -> (r: bool)
    ensures
        r == same_pointer(*a, *b),
{
    match (a, b) {
        (Option::None, Option::None) => true,
        (Option::Some(x), Option::Some(y)) => tid_eq(x, y),
        _ => false,
    }
}

} // verus!
