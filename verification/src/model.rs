//! Identities, actors and transactions.
//!
//! Keys, digests and signatures are held as fixed-size byte arrays; the view
//! (`@`) of such a value is the sequence of its bytes. Apart from a
//! transaction's payload every field is plain data, so two values are equal
//! exactly when their fields are.

use crate::codec::{hex_encode, hex_lower};
use crate::crypto::{
    ed25519_generate, ed25519_public_key, ed25519_verifies, ed25519_verify, sha3_256,
    sha3_256_digest,
};
use vstd::prelude::*;

verus! {

/// Compares two byte slices.
pub fn bytes_equal(a: &[u8], b: &[u8]) -> (same: bool)
    ensures
        same == (a@ == b@),
{
    if a.len() != b.len() {
        return false;
    }
    let mut i: usize = 0;
    while i < a.len()
        invariant
            i <= a.len(),
            a.len() == b.len(),
            forall|j: int| 0 <= j < i ==> a@[j] == b@[j],
        decreases a.len() - i,
    {
        if a[i] != b[i] {
            return false;
        }
        i += 1;
    }
    assert(a@ =~= b@);
    true
}

/// Copies `N` bytes out of `bytes`, starting at `start`.
pub fn take_array<const N: usize>(bytes: &[u8], start: usize) -> (taken: [u8; N])
    requires
        start + N <= bytes@.len(),
    ensures
        taken@ == bytes@.subrange(start as int, start + N),
{
    let total = bytes.len();
    let mut taken = [0_u8;N];
    let mut i: usize = 0;
    while i < N
        invariant
            i <= N,
            total == bytes@.len(),
            start + N <= total,
            forall|j: int| 0 <= j < i ==> taken@[j] == bytes@[start + j],
        decreases N - i,
    {
        taken[i] = bytes[start + i];
        i += 1;
    }
    assert(taken@ =~= bytes@.subrange(start as int, start + N));
    taken
}

/// The digest of an actor's public key: the key under which its records are kept.
#[derive(Clone, Copy, Debug, Hash)]
pub struct ActorId(pub [u8; 32]);

/// An Ed25519 public key, as its 32 bytes.
#[derive(Clone, Copy, Debug, Hash)]
pub struct PublicKey(pub [u8; 32]);

/// An Ed25519 secret key, as its 32 bytes.
#[derive(Clone, Copy, Debug, Hash)]
pub struct SecretKey(pub [u8; 32]);

/// An Ed25519 signature, as its 64 bytes.
#[derive(Clone, Copy, Debug, Hash)]
pub struct Signature(pub [u8; 64]);

impl View for ActorId {
    type V = Seq<u8>;

    open spec fn view(&self) -> Seq<u8> {
        self.0@
    }
}

impl View for PublicKey {
    type V = Seq<u8>;

    open spec fn view(&self) -> Seq<u8> {
        self.0@
    }
}

impl View for SecretKey {
    type V = Seq<u8>;

    open spec fn view(&self) -> Seq<u8> {
        self.0@
    }
}

impl View for Signature {
    type V = Seq<u8>;

    open spec fn view(&self) -> Seq<u8> {
        self.0@
    }
}

impl PartialEq for ActorId {
    fn eq(&self, other: &ActorId) -> (same: bool) {
        let same = bytes_equal(&self.0, &other.0);
        proof {
            lemma_actor_id_by_bytes(*self, *other);
        }
        same
    }
}

impl Eq for ActorId {

}

impl vstd::std_specs::cmp::PartialEqSpecImpl for ActorId {
    open spec fn obeys_eq_spec() -> bool {
        true
    }

    open spec fn eq_spec(&self, other: &ActorId) -> bool {
        *self == *other
    }
}

impl PartialEq for PublicKey {
    fn eq(&self, other: &PublicKey) -> (same: bool) {
        let same = bytes_equal(&self.0, &other.0);
        proof {
            lemma_public_key_by_bytes(*self, *other);
        }
        same
    }
}

impl Eq for PublicKey {

}

impl vstd::std_specs::cmp::PartialEqSpecImpl for PublicKey {
    open spec fn obeys_eq_spec() -> bool {
        true
    }

    open spec fn eq_spec(&self, other: &PublicKey) -> bool {
        *self == *other
    }
}

impl PartialEq for SecretKey {
    fn eq(&self, other: &SecretKey) -> (same: bool) {
        let same = bytes_equal(&self.0, &other.0);
        proof {
            lemma_secret_key_by_bytes(*self, *other);
        }
        same
    }
}

impl Eq for SecretKey {

}

impl vstd::std_specs::cmp::PartialEqSpecImpl for SecretKey {
    open spec fn obeys_eq_spec() -> bool {
        true
    }

    open spec fn eq_spec(&self, other: &SecretKey) -> bool {
        *self == *other
    }
}

impl PartialEq for Signature {
    fn eq(&self, other: &Signature) -> (same: bool) {
        let same = bytes_equal(&self.0, &other.0);
        proof {
            lemma_signature_by_bytes(*self, *other);
        }
        same
    }
}

impl Eq for Signature {

}

impl vstd::std_specs::cmp::PartialEqSpecImpl for Signature {
    open spec fn obeys_eq_spec() -> bool {
        true
    }

    open spec fn eq_spec(&self, other: &Signature) -> bool {
        *self == *other
    }
}

/// Two arrays of the same length are equal when their bytes are.
pub proof fn lemma_array_by_bytes<const N: usize>(a: [u8; N], b: [u8; N])
    ensures
        (a@ == b@) <==> a == b,
{
    if a@ == b@ {
        assert(a =~= b);
    }
}

/// An actor id is its 32 bytes and nothing more.
pub proof fn lemma_actor_id_by_bytes(a: ActorId, b: ActorId)
    ensures
        (a@ == b@) <==> a == b,
{
    lemma_array_by_bytes(a.0, b.0);
}

/// A public key is its 32 bytes and nothing more.
pub proof fn lemma_public_key_by_bytes(a: PublicKey, b: PublicKey)
    ensures
        (a@ == b@) <==> a == b,
{
    lemma_array_by_bytes(a.0, b.0);
}

/// A secret key is its 32 bytes and nothing more.
pub proof fn lemma_secret_key_by_bytes(a: SecretKey, b: SecretKey)
    ensures
        (a@ == b@) <==> a == b,
{
    lemma_array_by_bytes(a.0, b.0);
}

/// A signature is its 64 bytes and nothing more.
pub proof fn lemma_signature_by_bytes(a: Signature, b: Signature)
    ensures
        (a@ == b@) <==> a == b,
{
    lemma_array_by_bytes(a.0, b.0);
}

impl ActorId {
    /// The id of the actor that holds `public_key`: the SHA3-256 digest of the key.
    pub fn derive(public_key: &PublicKey) -> (id: ActorId)
        ensures
            id@ == sha3_256(public_key@),
    {
        ActorId(sha3_256_digest(&public_key.0))
    }

    /// The id in lower-case hexadecimal, 64 characters.
    pub fn to_string(&self) -> (text: String)
        ensures
            text@ == hex_lower(self@),
    {
        hex_encode(&self.0)
    }
}

impl PublicKey {
    /// Checks `signature` over `message` under this key.
    pub fn verifies(&self, message: &[u8], signature: &Signature) -> (valid: bool)
        ensures
            valid == ed25519_verifies(self@, message@, signature@),
    {
        ed25519_verify(&self.0, message, &signature.0)
    }
}

/// A secret key with the public key that belongs to it.
#[derive(Clone, Copy, Debug, PartialEq, Eq)]
pub struct Keypair {
    pub secret: SecretKey,
    pub public: PublicKey,
}

impl Keypair {
    /// Splits 64 bytes into the secret key and the public key that follows it.
    pub fn from_bytes(bytes: &[u8; 64]) -> (keypair: Keypair)
        ensures
            keypair.secret@ == bytes@.subrange(0, 32),
            keypair.public@ == bytes@.subrange(32, 64),
    {
        Keypair {
            secret: SecretKey(take_array::<32>(bytes.as_slice(), 0)),
            public: PublicKey(take_array::<32>(bytes.as_slice(), 32)),
        }
    }

    /// Whether the public key is the one that belongs to the secret key.
    pub open spec fn matched(self) -> bool {
        self.public@ == ed25519_public_key(self.secret@)
    }

    /// A fresh key pair from the system's random number generator: a random
    /// secret key, and the public key that belongs to it.
    pub fn generate() -> (keypair: Keypair)
        ensures
            keypair.matched(),
    {
        let bytes = ed25519_generate();
        Keypair::from_bytes(&bytes)
    }
}

/// The key pair that a node owns. There is one per node; it is made once and kept.
#[derive(Clone, Copy, Debug, PartialEq, Eq)]
pub struct Identity {
    pub keypair: Keypair,
}

impl Identity {
    /// The id under which this identity is known: that of its public key.
    pub open spec fn spec_id(self) -> Seq<u8> {
        sha3_256(self.keypair.public@)
    }

    /// The node's own actor id.
    pub fn id(&self) -> (id: ActorId)
        ensures
            id@ == self.spec_id(),
    {
        ActorId::derive(&self.keypair.public)
    }
}

/// An actor's id depends on its public key alone: equal keys give equal ids,
/// whatever else differs and however often the id is asked for.
pub proof fn lemma_actor_id_deterministic(a: Identity, b: Identity)
    requires
        a.keypair.public@ == b.keypair.public@,
    ensures
        a.spec_id() == b.spec_id(),
{
}

/// A network address: an IPv4 or IPv6 host and a port.
#[derive(Clone, Copy, Debug, PartialEq, Eq)]
#[allow(inconsistent_fields)]
pub enum SocketAddress {
    V4 { octets: [u8; 4], port: u16 },
    V6 { octets: [u8; 16], port: u16 },
}

/// A point in time: seconds since the Unix epoch and the nanoseconds past them.
#[derive(Clone, Copy, Debug, PartialEq, Eq)]
pub struct Timestamp {
    pub seconds: i64,
    pub nanoseconds: u32,
}

/// What this node has on record of a remote peer.
#[derive(Clone, Copy, Debug, PartialEq, Eq)]
#[non_exhaustive]
pub enum Actor {
    /// An admitted peer. The public key is absent until the peer has
    /// identified itself.
    Allowed { public_key: Option<PublicKey>, last_known_address: SocketAddress, last_seen: Timestamp },
}

/// A position in one actor's log of transactions. Indices start at 0.
#[derive(Clone, Copy, Debug, PartialEq, Eq)]
pub struct TransactionId {
    pub actor: ActorId,
    pub index: u64,
}

/// A signed payload. The payload means nothing to this library.
#[derive(Clone, Debug, PartialEq, Eq)]
pub struct Transaction {
    pub message: Vec<u8>,
    pub nonce: u64,
    pub signature: Signature,
}

/// A transaction as a mathematical value.
pub struct TransactionView {
    pub message: Seq<u8>,
    pub nonce: u64,
    pub signature: Signature,
}

impl View for Transaction {
    type V = TransactionView;

    open spec fn view(&self) -> TransactionView {
        TransactionView { message: self.message@, nonce: self.nonce, signature: self.signature }
    }
}

} // verus!
