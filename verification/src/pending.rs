//! Tracking of submitted messages that are neither confirmed nor expired
//! yet. A message hash is registered at most once concurrently; an entry
//! leaves the tracker exactly once, through a confirmation or through
//! expiration, and yields exactly one notification either way.

use vstd::prelude::*;
use vstd::seq_lib::*;

use crate::models::{
    bytes_eq, Notification, PendingTransaction, Transaction, WalletError,
};

verus! {

/// Whether some entry of `s` carries the message hash `h`.
pub open spec fn contains_hash(s: Seq<PendingTransaction>, h: Seq<u8>) -> bool {
    exists|i: int| 0 <= i < s.len() && (#[trigger] s[i]).message_hash@ == h
}

/// Whether no two entries of `s` share a message hash.
pub open spec fn distinct_hashes(s: Seq<PendingTransaction>) -> bool {
    forall|i: int, j: int|
        0 <= i < j < s.len() ==> (#[trigger] s[i]).message_hash@ != (#[trigger] s[j]).message_hash@
}

/// Whether the entry can no longer be confirmed once the observed block
/// time has reached `t`.
pub open spec fn is_expired(p: PendingTransaction, t: u32) -> bool {
    p.expire_at <= t
}

/// The entries of `s` still alive after the observed block time reached `t`.
pub open spec fn live_after(s: Seq<PendingTransaction>, t: u32) -> Seq<PendingTransaction> {
    s.filter(|p: PendingTransaction| !is_expired(p, t))
}

/// One expiration notification for each entry of `s` dead once the observed
/// block time reached `t`, in order.
pub open spec fn expired_notices(s: Seq<PendingTransaction>, t: u32) -> Seq<Notification> {
    s.filter(|p: PendingTransaction| is_expired(p, t)).map_values(
        |p: PendingTransaction| Notification::MessageExpired(p),
    )
}

/// Whether two pending entries describe the same submission.
pub open spec fn same_pending(a: PendingTransaction, b: PendingTransaction) -> bool {
    &&& a.message_hash@ == b.message_hash@
    &&& a.src@ == b.src@
    &&& a.expire_at == b.expire_at
}

/// Whether `n` is the one notification owed for resolving the entry `p`:
/// a confirmation carrying the observed transaction when there is one, an
/// expiration otherwise.
pub open spec fn resolution_of(
    p: PendingTransaction,
    tx: Option<Transaction>,
    n: Notification,
) -> bool {
    match tx {
        Option::Some(t) => n == Notification::MessageSent(p, Option::Some(t)),
        Option::None => n == Notification::MessageExpired(p),
    }
}

/// The outstanding submissions of one wallet, keyed by message hash.
pub struct PendingTransactionTracker {
    entries: Vec<PendingTransaction>,
}

impl View for PendingTransactionTracker {
    type V = Seq<PendingTransaction>;

    closed spec fn view(&self) -> Seq<PendingTransaction> {
        self.entries@
    }
}

impl PendingTransactionTracker {
    /// No two tracked entries share a message hash.
    pub open spec fn wf(self) -> bool {
        distinct_hashes(self@)
    }

    /// An empty tracker.
    pub fn new() -> (r: PendingTransactionTracker)
        ensures
            r.wf(),
            r@ == Seq::<PendingTransaction>::empty(),
    {
        PendingTransactionTracker { entries: Vec::new() }
    }

    /// How many submissions are outstanding.
    pub fn len(&self) -> (r: usize)
        ensures
            r == self@.len(),
    {
        self.entries.len()
    }

    /// Whether a submission with this message hash is outstanding.
    pub fn contains(&self, message_hash: &Vec<u8>) -> (r: bool)
        ensures
            r == contains_hash(self@, message_hash@),
    {
        let n = self.entries.len();
        let mut i: usize = 0;
        while i < n
            invariant
                n == self@.len(),
                i <= n,
                forall|j: int| 0 <= j < i ==> self@[j].message_hash@ != message_hash@,
            decreases n - i,
        {
            if bytes_eq(&self.entries[i].message_hash, message_hash) {
                return true;
            }
            i += 1;
        }
        false
    }

    /// Records a submission accepted by the transport. Fails with
    /// `DuplicateSubmission`, leaving the tracker untouched, exactly when
    /// the hash is still outstanding; otherwise appends one entry built
    /// from the arguments and returns its copy.
    pub fn register(
        &mut self,
        message_hash: Vec<u8>,
        src: String,
        expire_at: u32,
    ) -> (r: Result<PendingTransaction, WalletError>)
        requires
            old(self).wf(),
        ensures
            final(self).wf(),
            contains_hash(old(self)@, message_hash@) ==> {
                &&& r == Err::<PendingTransaction, WalletError>(WalletError::DuplicateSubmission)
                &&& final(self)@ == old(self)@
            },
            !contains_hash(old(self)@, message_hash@) ==> {
                &&& r is Ok
                &&& r->Ok_0.message_hash@ == message_hash@
                &&& r->Ok_0.src@ == src@
                &&& r->Ok_0.expire_at == expire_at
                &&& final(self)@.len() == old(self)@.len() + 1
                &&& final(self)@ == old(self)@.push(final(self)@.last())
                &&& same_pending(final(self)@.last(), r->Ok_0)
            },
    {
        if self.contains(&message_hash) {
            return Err(WalletError::DuplicateSubmission);
        }
        let entry_hash = crate::models::copy_bytes(&message_hash);
        let entry_src = src.clone();
        let entry = PendingTransaction { message_hash: entry_hash, src: entry_src, expire_at };
        self.entries.push(entry);
        proof {
            assert forall|i: int, j: int| 0 <= i < j < self@.len() implies (#[trigger] self@[i]).message_hash@
                != (#[trigger] self@[j]).message_hash@ by {
                if j < self@.len() - 1 {
                    assert(self@[i] == old(self)@[i] && self@[j] == old(self)@[j]);
                } else {
                    assert(self@[i] == old(self)@[i]);
                    assert(self@[j].message_hash@ == message_hash@);
                }
            }
        }
        Ok(PendingTransaction { message_hash, src, expire_at })
    }

    /// Resolves the outstanding submission with this hash, if any: the
    /// entry leaves the tracker and yields its one notification, a
    /// confirmation when a matching transaction was observed, an
    /// expiration otherwise. Without a matching entry nothing changes.
    pub fn resolve(&mut self, message_hash: &Vec<u8>, tx: Option<Transaction>) -> (r: Option<
        Notification,
    >)
        requires
            old(self).wf(),
        ensures
            final(self).wf(),
            !contains_hash(old(self)@, message_hash@) ==> {
                &&& r is None
                &&& final(self)@ == old(self)@
            },
            contains_hash(old(self)@, message_hash@) ==> {
                &&& r is Some
                &&& exists|i: int|
                    0 <= i < old(self)@.len() && (#[trigger] old(self)@[i]).message_hash@
                        == message_hash@ && final(self)@ == old(self)@.remove(i)
                        && resolution_of(old(self)@[i], tx, r->Some_0)
                &&& !contains_hash(final(self)@, message_hash@)
            },
    {
        let n = self.entries.len();
        let mut i: usize = 0;
        while i < n
            invariant
                old(self).wf(),
                self@ == old(self)@,
                n == self@.len(),
                i <= n,
                forall|j: int| 0 <= j < i ==> self@[j].message_hash@ != message_hash@,
            decreases n - i,
        {
            if bytes_eq(&self.entries[i].message_hash, message_hash) {
                let entry = self.entries.remove(i);
                proof {
                    assert(old(self)@[i as int].message_hash@ == message_hash@);
                    assert forall|k: int|
                        0 <= k < self@.len() implies (#[trigger] self@[k]).message_hash@
                        != message_hash@ by {
                        if k < i {
                            assert(self@[k] == old(self)@[k]);
                        } else {
                            assert(self@[k] == old(self)@[k + 1]);
                            assert(old(self)@[i as int].message_hash@ != old(self)@[k
                                + 1].message_hash@);
                        }
                    }
                    assert forall|k1: int, k2: int|
                        0 <= k1 < k2 < self@.len() implies (#[trigger] self@[k1]).message_hash@
                        != (#[trigger] self@[k2]).message_hash@ by {
                        let m1: int = if k1 < i { k1 } else { k1 + 1 };
                        let m2: int = if k2 < i { k2 } else { k2 + 1 };
                        assert(self@[k1] == old(self)@[m1]);
                        assert(self@[k2] == old(self)@[m2]);
                        assert(old(self)@[m1].message_hash@ != old(self)@[m2].message_hash@);
                    }
                }
                let notice = match tx {
                    Option::Some(t) => Notification::MessageSent(entry, Option::Some(t)),
                    Option::None => Notification::MessageExpired(entry),
                };
                proof {
                    assert(0 <= i < old(self)@.len() && old(self)@[i as int].message_hash@
                        == message_hash@ && self@ == old(self)@.remove(i as int)
                        && resolution_of(old(self)@[i as int], tx, notice));
                }
                return Some(notice);
            }
            i += 1;
        }
        None
    }

    /// Resolves, in order, every outstanding entry met by one of the
    /// observed confirmed transactions, yielding one confirmation
    /// notification per match; unmatched transactions change nothing.
    pub fn resolve_all(&mut self, txs: Vec<Transaction>) -> (r: Vec<Notification>)
        requires
            old(self).wf(),
        ensures
            final(self).wf(),
            final(self)@ == resolved_pending(old(self)@, txs@),
            r@ == resolution_notices(old(self)@, txs@),
    {
        let ghost all = txs@;
        let ghost orig = self@;
        let mut txs = txs;
        let mut notices: Vec<Notification> = Vec::new();
        let ghost mut done: Seq<Transaction> = Seq::empty();
        proof {
            assert(all =~= done + txs@);
            assert(notices@ =~= resolution_notices(orig, done));
        }
        while txs.len() > 0
            invariant
                self.wf(),
                all == done + txs@,
                self@ == resolved_pending(orig, done),
                notices@ == resolution_notices(orig, done),
            decreases txs@.len(),
        {
            let ghost pre_txs = txs@;
            let ghost pre_pending = self@;
            let t = txs.remove(0);
            let h = crate::models::copy_bytes(&t.in_msg_hash);
            let res = self.resolve(&h, Some(t));
            proof {
                assert(pre_txs =~= seq![t] + txs@);
                assert(all =~= done.push(t) + txs@) by {
                    assert(done + (seq![t] + txs@) =~= done.push(t) + txs@);
                }
                let prev_done = done;
                done = done.push(t);
                assert(done.drop_last() =~= prev_done);
                assert(done.last() == t);
                assert(resolved_pending(orig, done.drop_last()) == pre_pending);
                if contains_hash(pre_pending, t.in_msg_hash@) {
                    let i = choose|i: int|
                        0 <= i < pre_pending.len() && (#[trigger] pre_pending[i]).message_hash@
                            == h@ && self@ == pre_pending.remove(i) && resolution_of(
                            pre_pending[i],
                            Option::Some(t),
                            res->Some_0,
                        );
                    lemma_unique_hash_index(pre_pending, i, t.in_msg_hash@);
                    assert(self@ == resolve_step(pre_pending, t));
                } else {
                    assert(self@ == resolve_step(pre_pending, t));
                }
            }
            match res {
                Option::Some(n) => {
                    notices.push(n);
                    proof {
                        assert(notices@ =~= resolution_notices(orig, done));
                    }
                },
                Option::None => {
                    proof {
                        assert(notices@ + Seq::<Notification>::empty() =~= notices@);
                        assert(notices@ =~= resolution_notices(orig, done));
                    }
                },
            }
        }
        proof {
            assert(all =~= done);
        }
        notices
    }

    /// Purges every entry whose expiration has been reached by the observed
    /// block time, yielding exactly one expiration notification per purged
    /// entry; the live entries stay, in order.
    pub fn purge_expired(&mut self, block_utime: u32) -> (r: Vec<Notification>)
        requires
            old(self).wf(),
        ensures
            final(self).wf(),
            final(self)@ == live_after(old(self)@, block_utime),
            r@ == expired_notices(old(self)@, block_utime),
    {
        let ghost orig = self@;
        let mut kept: Vec<PendingTransaction> = Vec::new();
        let mut notices: Vec<Notification> = Vec::new();
        let ghost mut done: Seq<PendingTransaction> = Seq::empty();
        proof {
            reveal(Seq::filter);
            assert(orig =~= done + self@);
            assert(kept@ =~= live_after(done, block_utime));
            assert(notices@ =~= expired_notices(done, block_utime));
        }
        while self.entries.len() > 0
            invariant
                orig == done + self@,
                kept@ == live_after(done, block_utime),
                notices@ == expired_notices(done, block_utime),
            decreases self@.len(),
        {
            let ghost pre = self@;
            let entry = self.entries.remove(0);
            proof {
                assert(pre =~= seq![entry] + self@);
                assert(done + pre =~= done.push(entry) + self@);
                done = done.push(entry);
            }
            if entry.expire_at <= block_utime {
                notices.push(Notification::MessageExpired(entry));
                proof {
                    broadcast use Seq::lemma_filter_push;
                    broadcast use Seq::lemma_push_map_commute;

                    assert(kept@ =~= live_after(done, block_utime));
                    assert(notices@ =~= expired_notices(done, block_utime));
                }
            } else {
                kept.push(entry);
                proof {
                    broadcast use Seq::lemma_filter_push;
                    broadcast use Seq::lemma_push_map_commute;

                    assert(kept@ =~= live_after(done, block_utime));
                    assert(notices@ =~= expired_notices(done, block_utime));
                }
            }
        }
        proof {
            assert(orig =~= done);
            lemma_live_after_distinct(orig, block_utime);
        }
        self.entries = kept;
        notices
    }
}

/// The index of the entry carrying hash `h`; meaningful only when the
/// hashes are distinct and some entry carries `h`.
pub open spec fn hash_index(s: Seq<PendingTransaction>, h: Seq<u8>) -> int {
    choose|i: int| 0 <= i < s.len() && (#[trigger] s[i]).message_hash@ == h
}

/// One resolution step: observing the confirmed transaction `tx` removes
/// the entry carrying its incoming-message hash, if one is outstanding.
pub open spec fn resolve_step(s: Seq<PendingTransaction>, tx: Transaction) -> Seq<
    PendingTransaction,
> {
    if contains_hash(s, tx.in_msg_hash@) {
        s.remove(hash_index(s, tx.in_msg_hash@))
    } else {
        s
    }
}

/// The entries left outstanding after observing the confirmed transactions
/// `txs`, in order.
pub open spec fn resolved_pending(s: Seq<PendingTransaction>, txs: Seq<Transaction>) -> Seq<
    PendingTransaction,
>
    decreases txs.len(),
{
    if txs.len() == 0 {
        s
    } else {
        resolve_step(resolved_pending(s, txs.drop_last()), txs.last())
    }
}

/// The confirmation notifications produced by observing the confirmed
/// transactions `txs`, in order: one per transaction that met an
/// outstanding entry.
pub open spec fn resolution_notices(s: Seq<PendingTransaction>, txs: Seq<Transaction>) -> Seq<
    Notification,
>
    decreases txs.len(),
{
    if txs.len() == 0 {
        Seq::empty()
    } else {
        let q = resolved_pending(s, txs.drop_last());
        let t = txs.last();
        resolution_notices(s, txs.drop_last()) + if contains_hash(q, t.in_msg_hash@) {
            seq![Notification::MessageSent(q[hash_index(q, t.in_msg_hash@)], Option::Some(t))]
        } else {
            Seq::empty()
        }
    }
}

/// With distinct hashes the matching entry is unique, so the chosen index
/// is the found one.
proof fn lemma_unique_hash_index(s: Seq<PendingTransaction>, i: int, h: Seq<u8>)
    requires
        distinct_hashes(s),
        0 <= i < s.len(),
        s[i].message_hash@ == h,
    ensures
        contains_hash(s, h),
        hash_index(s, h) == i,
{
    assert(contains_hash(s, h));
    let j = hash_index(s, h);
    assert(0 <= j < s.len() && s[j].message_hash@ == h);
    if j < i {
        assert(s[j].message_hash@ != s[i].message_hash@);
    } else if i < j {
        assert(s[i].message_hash@ != s[j].message_hash@);
    }
}

/// An entry appended by a successful registration is seen by every later
/// lookup of its hash: a second registration without an intervening
/// resolution meets it and is refused as a duplicate.
pub proof fn lemma_registered_hash_present(s: Seq<PendingTransaction>, p: PendingTransaction)
    ensures
        contains_hash(s.push(p), p.message_hash@),
{
    assert(s.push(p)[s.len() as int].message_hash@ == p.message_hash@);
}

/// Expiration fires exactly once: one purge removes every entry expired by
/// `t` and notifies each exactly once, and a second purge at the same
/// observed time finds nothing left to expire.
pub proof fn lemma_purge_exactly_once(s: Seq<PendingTransaction>, t: u32)
    ensures
        expired_notices(s, t).len() + live_after(s, t).len() == s.len(),
        expired_notices(live_after(s, t), t) == Seq::<Notification>::empty(),
{
    lemma_purge_partition(s, t);
    assert forall|i: int| 0 <= i < live_after(s, t).len() implies !is_expired(
        #[trigger] live_after(s, t)[i],
        t,
    ) by {
        Seq::lemma_filter_pred(s, |p: PendingTransaction| !is_expired(p, t), i);
    }
    lemma_no_expired_no_notices(live_after(s, t), t);
}

/// The purge partitions the tracked entries: every entry either expires,
/// with its one notification, or stays live.
proof fn lemma_purge_partition(s: Seq<PendingTransaction>, t: u32)
    ensures
        expired_notices(s, t).len() + live_after(s, t).len() == s.len(),
    decreases s.len(),
{
    reveal(Seq::filter);
    if s.len() == 0 {
    } else {
        lemma_purge_partition(s.drop_last(), t);
    }
}

/// A sequence with no expired entry yields no expiration notification.
proof fn lemma_no_expired_no_notices(q: Seq<PendingTransaction>, t: u32)
    requires
        forall|i: int| 0 <= i < q.len() ==> !is_expired(#[trigger] q[i], t),
    ensures
        expired_notices(q, t) == Seq::<Notification>::empty(),
    decreases q.len(),
{
    reveal(Seq::filter);
    if q.len() == 0 {
        assert(expired_notices(q, t) =~= Seq::<Notification>::empty());
    } else {
        lemma_no_expired_no_notices(q.drop_last(), t);
        assert(!is_expired(q.last(), t));
        assert(expired_notices(q, t) =~= Seq::<Notification>::empty());
    }
}

/// Each live entry comes from the sequence that was filtered.
proof fn lemma_live_membership(q: Seq<PendingTransaction>, t: u32, k: int)
    requires
        0 <= k < live_after(q, t).len(),
    ensures
        q.contains(live_after(q, t)[k]),
    decreases q.len(),
{
    reveal(Seq::filter);
    if q.len() == 0 {
    } else {
        let prefix = q.drop_last();
        let sub = live_after(prefix, t);
        let e = live_after(q, t)[k];
        if !is_expired(q.last(), t) && k == live_after(q, t).len() - 1 {
            assert(e == q.last());
            assert(q[q.len() - 1] == e);
        } else {
            lemma_live_membership(prefix, t, k);
            assert(prefix.contains(sub[k]));
            let j = choose|j: int| 0 <= j < prefix.len() && prefix[j] == sub[k];
            assert(q[j] == sub[k]);
        }
    }
}

/// Filtering to the live entries keeps the message hashes distinct.
proof fn lemma_live_after_distinct(s: Seq<PendingTransaction>, t: u32)
    requires
        distinct_hashes(s),
    ensures
        distinct_hashes(live_after(s, t)),
    decreases s.len(),
{
    reveal(Seq::filter);
    if s.len() == 0 {
    } else {
        let prefix = s.drop_last();
        assert(distinct_hashes(prefix)) by {
            assert(forall|i: int| 0 <= i < prefix.len() ==> prefix[i] == s[i]);
        }
        lemma_live_after_distinct(prefix, t);
        if !is_expired(s.last(), t) {
            assert(live_after(s, t) == live_after(prefix, t).push(s.last()));
            assert forall|k: int| 0 <= k < live_after(prefix, t).len() implies (
            #[trigger] live_after(prefix, t)[k]).message_hash@ != s.last().message_hash@ by {
                lemma_live_membership(prefix, t, k);
                let e = live_after(prefix, t)[k];
                let j = choose|j: int| 0 <= j < prefix.len() && prefix[j] == e;
                assert(s[j] == e);
                assert(s[j].message_hash@ != s[s.len() - 1].message_hash@);
            }
        }
    }
}

} // verus!
