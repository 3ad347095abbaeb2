//! Expiring unsigned messages and their finalized signed form. The
//! signature itself comes from an external key store; it enters here as a
//! plain sixty-four byte value.

use vstd::prelude::*;

use crate::hexstr::{encode_hex, hex_of};
use crate::models::WalletError;

verus! {

/// Length of a message content hash, in bytes.
pub const HASH_LEN: usize = 32;

/// Length of a signature, in bytes.
pub const SIGNATURE_LEN: usize = 64;

/// The all-zero signature used for structurally valid dry runs.
pub open spec fn zero_signature_seq() -> Seq<u8> {
    Seq::new(SIGNATURE_LEN as nat, |i: int| 0u8)
}

/// Appends the bytes of `src` to `dst`.
fn append_bytes(dst: &mut Vec<u8>, src: &Vec<u8>)
    ensures
        final(dst)@ == old(dst)@ + src@,
{
    let n = src.len();
    let mut i: usize = 0;
    while i < n
        invariant
            n == src@.len(),
            i <= n,
            dst@ == old(dst)@ + src@.take(i as int),
        decreases n - i,
    {
        dst.push(src[i]);
        proof {
            assert(old(dst)@ + src@.take(i + 1) =~= (old(dst)@ + src@.take(i as int)).push(
                src@[i as int],
            ));
        }
        i += 1;
    }
    proof {
        assert(src@.take(n as int) =~= src@);
    }
}

/// A signature of sixty-four zero bytes.
fn zero_signature() -> (r: Vec<u8>)
    ensures
        r@ == zero_signature_seq(),
{
    let mut sig: Vec<u8> = Vec::new();
    let mut i: usize = 0;
    while i < SIGNATURE_LEN
        invariant
            i <= SIGNATURE_LEN,
            sig@ =~= Seq::new(i as nat, |j: int| 0u8),
        decreases SIGNATURE_LEN - i,
    {
        sig.push(0u8);
        i += 1;
    }
    proof {
        assert(sig@ =~= zero_signature_seq());
    }
    sig
}

/// An expiring message payload awaiting a signature.
///
/// The body and its content hash are fixed once built; only the expiration
/// moves, and only forward.
#[derive(Clone, Debug)]
pub struct UnsignedMessage {
    body: Vec<u8>,
    hash: Vec<u8>,
    expire_at: u32,
    timeout: u32,
}

/// An immutable finalized message bound to the expiration of the unsigned
/// message it was signed from.
#[derive(Clone, Debug)]
pub struct SignedMessage {
    /// The finalized message bytes: the body with the signature appended.
    pub message: Vec<u8>,
    /// The content hash copied from the unsigned message; a later confirmed
    /// transaction is correlated with a submission through it.
    pub hash: Vec<u8>,
    /// Unix time after which the message is no longer valid.
    pub expire_at: u32,
}

impl SignedMessage {
    /// The expiration frozen at signing time.
    pub fn expire_at(&self) -> (r: u32)
        ensures
            r == self.expire_at,
    {
        self.expire_at
    }
}

impl UnsignedMessage {
    /// The message body.
    pub closed spec fn spec_body(self) -> Seq<u8> {
        self.body@
    }

    /// The content hash.
    pub closed spec fn spec_hash(self) -> Seq<u8> {
        self.hash@
    }

    /// The current expiration snapshot, unix seconds.
    pub closed spec fn spec_expire_at(self) -> u32 {
        self.expire_at
    }

    /// The expiration policy: how many seconds a freshly stamped message
    /// stays valid.
    pub closed spec fn spec_timeout(self) -> u32 {
        self.timeout
    }

    /// A well-formed message carries a thirty-two byte hash and a positive
    /// expiration window.
    pub open spec fn wf(self) -> bool {
        &&& self.spec_hash().len() == HASH_LEN
        &&& self.spec_timeout() >= 1
    }

    /// The expiration after a refresh at time `now`: unchanged while still
    /// in the future, `now` plus the policy window otherwise.
    pub open spec fn refreshed_expire_at(self, now: u32) -> int {
        if self.spec_expire_at() > now {
            self.spec_expire_at() as int
        } else {
            now + self.spec_timeout()
        }
    }

    /// Builds a message from its body and content hash, expiring `timeout`
    /// seconds after `now`.
    pub fn new(body: Vec<u8>, hash: Vec<u8>, now: u32, timeout: u32) -> (r: UnsignedMessage)
        requires
            hash@.len() == HASH_LEN,
            timeout >= 1,
            now + timeout <= u32::MAX,
        ensures
            r.wf(),
            r.spec_body() == body@,
            r.spec_hash() == hash@,
            r.spec_timeout() == timeout,
            r.spec_expire_at() == now + timeout,
            r.spec_expire_at() > now,
    {
        UnsignedMessage { body, hash, expire_at: now + timeout, timeout }
    }

    /// Recomputes the expiration relative to `now` under the original
    /// policy: a no-op while the current expiration is still in the future,
    /// a forward stamp otherwise. The expiration never moves backward, and
    /// afterwards it is strictly in the future again.
    pub fn refresh_timeout(&mut self, now: u32)
        requires
            old(self).wf(),
            now + old(self).spec_timeout() <= u32::MAX,
        ensures
            final(self).wf(),
            final(self).spec_hash() == old(self).spec_hash(),
            final(self).spec_body() == old(self).spec_body(),
            final(self).spec_timeout() == old(self).spec_timeout(),
            final(self).spec_expire_at() == old(self).refreshed_expire_at(now),
            final(self).spec_expire_at() >= old(self).spec_expire_at(),
            final(self).spec_expire_at() > now,
    {
        if self.expire_at <= now {
            self.expire_at = now + self.timeout;
        }
    }

    /// The current expiration snapshot.
    pub fn expire_at(&self) -> (r: u32)
        ensures
            r == self.spec_expire_at(),
    {
        self.expire_at
    }

    /// The content hash, rendered as lowercase hexadecimal. It depends on
    /// the body alone, never on the expiration.
    pub fn hash(&self) -> (r: String)
        ensures
            r@ == hex_of(self.spec_hash()),
    {
        encode_hex(&self.hash)
    }

    /// The content hash as raw bytes, as handed to a signature provider.
    pub fn hash_bytes(&self) -> (r: Vec<u8>)
        ensures
            r@ == self.spec_hash(),
    {
        crate::models::copy_bytes(&self.hash)
    }

    /// Binds a signature to the body and freezes the expiration. Fails with
    /// `SigningFailed` exactly when the provided signature is not
    /// sixty-four bytes; on success the finalized bytes are the body with
    /// the signature appended and the expiration is copied unchanged.
    pub fn sign(self, signature: &Vec<u8>) -> (r: Result<SignedMessage, WalletError>)
        ensures
            signature@.len() == SIGNATURE_LEN ==> {
                &&& r is Ok
                &&& r->Ok_0.message@ == self.spec_body() + signature@
                &&& r->Ok_0.hash@ == self.spec_hash()
                &&& r->Ok_0.expire_at == self.spec_expire_at()
            },
            signature@.len() != SIGNATURE_LEN ==> r == Err::<SignedMessage, WalletError>(
                WalletError::SigningFailed,
            ),
    {
        if signature.len() != SIGNATURE_LEN {
            return Err(WalletError::SigningFailed);
        }
        let mut message = self.body;
        append_bytes(&mut message, signature);
        Ok(SignedMessage { message, hash: self.hash, expire_at: self.expire_at })
    }

    /// Produces a structurally valid signed message carrying the all-zero
    /// signature, for fee-estimation dry runs that are never broadcast.
    pub fn sign_fake(&self) -> (r: Result<SignedMessage, WalletError>)
        ensures
            r is Ok,
            r->Ok_0.message@ == self.spec_body() + zero_signature_seq(),
            r->Ok_0.hash@ == self.spec_hash(),
            r->Ok_0.expire_at == self.spec_expire_at(),
    {
        let mut message: Vec<u8> = Vec::new();
        append_bytes(&mut message, &self.body);
        let sig = zero_signature();
        append_bytes(&mut message, &sig);
        proof {
            assert(message@ =~= self.spec_body() + zero_signature_seq());
        }
        let hash = crate::models::copy_bytes(&self.hash);
        Ok(SignedMessage { message, hash, expire_at: self.expire_at })
    }
}

/// The content hash is stable across repeated reads and across expiration
/// refreshes: it is a function of the stored hash alone, which
/// `refresh_timeout` leaves untouched, never of the expiration.
pub proof fn lemma_hash_stable(m1: UnsignedMessage, m2: UnsignedMessage)
    requires
        m1.spec_hash() == m2.spec_hash(),
    ensures
        hex_of(m1.spec_hash()) == hex_of(m2.spec_hash()),
{
}

/// Refreshing the timeout never decreases the expiration, and restores a
/// strictly future expiration whenever the previous one has elapsed.
pub proof fn lemma_refresh_never_decreases_expiration(m: UnsignedMessage, now: u32)
    requires
        m.wf(),
        now + m.spec_timeout() <= u32::MAX,
    ensures
        m.refreshed_expire_at(now) >= m.spec_expire_at(),
        m.refreshed_expire_at(now) > now,
{
}

/// A mnemonic scheme for a key derived outside this library.
#[derive(Clone, Copy, Debug, PartialEq, Eq, Structural)]
pub enum ParsedMnemonicType {
    /// Twelve-word scheme bound to an account number.
    Labs { account_id: u16 },
    /// Legacy twenty-four word scheme.
    Legacy,
}

/// The mnemonic scheme for the given account number.
pub fn make_labs_mnemonic(id: u16) -> (r: ParsedMnemonicType)
    ensures
        r == (ParsedMnemonicType::Labs { account_id: id }),
{
    ParsedMnemonicType::Labs { account_id: id }
}

/// The legacy mnemonic scheme.
pub fn make_legacy_mnemonic() -> (r: ParsedMnemonicType)
    ensures
        r == ParsedMnemonicType::Legacy,
{
    ParsedMnemonicType::Legacy
}

} // verus!
