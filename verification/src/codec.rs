//! The byte formats of stored records and of their keys.
//!
//! Every format is fixed and deterministic: a value has one encoding, and a
//! decoder accepts exactly the encodings. Each decoder is therefore specified
//! as the inverse of its encoder, and the round-trip laws follow from the
//! encoders being injective.
//!
//! Integers are little-endian, except the index in a transaction's key, which
//! is big-endian so that keys sort by actor and then by index. Where a key is
//! shown as text, it is in lower-case hexadecimal.

use crate::crypto::ed25519_verifies;
use crate::model::{
    lemma_actor_id_by_bytes, lemma_array_by_bytes, lemma_public_key_by_bytes,
    lemma_secret_key_by_bytes, lemma_signature_by_bytes, take_array, Actor, ActorId, Identity,
    Keypair, PublicKey, SecretKey, Signature, SocketAddress, Timestamp, Transaction,
    TransactionId, TransactionView,
};
use vstd::bytes::{
    lemma_auto_spec_u16_to_from_le_bytes, lemma_auto_spec_u32_to_from_le_bytes,
    lemma_auto_spec_u64_to_from_le_bytes, spec_u16_from_le_bytes, spec_u16_to_le_bytes,
    spec_u32_from_le_bytes, spec_u32_to_le_bytes, spec_u64_from_le_bytes, spec_u64_to_le_bytes,
    u16_from_le_bytes, u16_to_le_bytes, u32_from_le_bytes, u32_to_le_bytes, u64_from_le_bytes,
    u64_to_le_bytes,
};
use vstd::prelude::*;
use vstd::slice::{slice_subrange, slice_to_vec};

verus! {

/// The bytes of `bytes` in the opposite order.
pub open spec fn reversed(bytes: Seq<u8>) -> Seq<u8> {
    Seq::new(bytes.len(), |i: int| bytes[bytes.len() - 1 - i])
}

/// A 64-bit integer in eight bytes, the most significant first.
pub open spec fn u64_be(x: u64) -> Seq<u8> {
    reversed(spec_u64_to_le_bytes(x))
}

/// Reversing twice gives the bytes back.
pub proof fn lemma_reversed_twice(bytes: Seq<u8>)
    ensures
        reversed(reversed(bytes)) == bytes,
{
    assert(reversed(reversed(bytes)) =~= bytes);
}

/// The big-endian form has eight bytes and determines the integer.
pub proof fn lemma_u64_be_injective(a: u64, b: u64)
    ensures
        u64_be(a).len() == 8,
        u64_be(a) == u64_be(b) ==> a == b,
{
    lemma_auto_spec_u64_to_from_le_bytes();
    if u64_be(a) == u64_be(b) {
        lemma_reversed_twice(spec_u64_to_le_bytes(a));
        lemma_reversed_twice(spec_u64_to_le_bytes(b));
        assert(spec_u64_from_le_bytes(spec_u64_to_le_bytes(a)) == a);
        assert(spec_u64_from_le_bytes(spec_u64_to_le_bytes(b)) == b);
    }
}

/// Appends `bytes` to `out`.
pub fn append(out: &mut Vec<u8>, bytes: &[u8])
    ensures
        final(out)@ == old(out)@ + bytes@,
{
    let mut i: usize = 0;
    while i < bytes.len()
        invariant
            i <= bytes.len(),
            out@ == old(out)@ + bytes@.subrange(0, i as int),
        decreases bytes.len() - i,
    {
        out.push(bytes[i]);
        i += 1;
        assert(out@ =~= old(out)@ + bytes@.subrange(0, i as int));
    }
    assert(bytes@.subrange(0, i as int) =~= bytes@);
}

/// Appends `x` to `out` in eight bytes, the most significant first.
pub fn append_u64_be(out: &mut Vec<u8>, x: u64)
    ensures
        final(out)@ == old(out)@ + u64_be(x),
{
    let little = u64_to_le_bytes(x);
    let mut i: usize = 0;
    while i < 8
        invariant
            i <= 8,
            little@ == spec_u64_to_le_bytes(x),
            little@.len() == 8,
            out@ == old(out)@ + u64_be(x).subrange(0, i as int),
        decreases 8 - i,
    {
        out.push(little[7 - i]);
        i += 1;
        assert(out@ =~= old(out)@ + u64_be(x).subrange(0, i as int));
    }
    assert(u64_be(x).subrange(0, 8) =~= u64_be(x));
}

/// Reads the integer that eight big-endian bytes stand for.
pub fn read_u64_be(bytes: &[u8]) -> (x: u64)
    requires
        bytes@.len() == 8,
    ensures
        u64_be(x) == bytes@,
{
    let mut little: Vec<u8> = Vec::new();
    let mut i: usize = 0;
    while i < 8
        invariant
            i <= 8,
            bytes@.len() == 8,
            little@ == reversed(bytes@).subrange(0, i as int),
        decreases 8 - i,
    {
        little.push(bytes[7 - i]);
        i += 1;
        assert(little@ =~= reversed(bytes@).subrange(0, i as int));
    }
    assert(little@ =~= reversed(bytes@));
    let x = u64_from_le_bytes(little.as_slice());
    proof {
        lemma_auto_spec_u64_to_from_le_bytes();
        assert(spec_u64_to_le_bytes(spec_u64_from_le_bytes(little@)) == little@);
        lemma_reversed_twice(bytes@);
    }
    x
}

/// The stored form of an identity: the secret key, then the public key.
pub open spec fn identity_bytes(identity: Identity) -> Seq<u8> {
    identity.keypair.secret@ + identity.keypair.public@
}

/// An identity's stored form has 64 bytes and determines the identity.
pub proof fn lemma_identity_bytes_injective(a: Identity, b: Identity)
    ensures
        identity_bytes(a).len() == 64,
        identity_bytes(a) == identity_bytes(b) ==> a == b,
{
    if identity_bytes(a) == identity_bytes(b) {
        assert(a.keypair.secret@ =~= identity_bytes(a).subrange(0, 32));
        assert(b.keypair.secret@ =~= identity_bytes(b).subrange(0, 32));
        assert(a.keypair.public@ =~= identity_bytes(a).subrange(32, 64));
        assert(b.keypair.public@ =~= identity_bytes(b).subrange(32, 64));
        lemma_secret_key_by_bytes(a.keypair.secret, b.keypair.secret);
        lemma_public_key_by_bytes(a.keypair.public, b.keypair.public);
    }
}

/// The identity that `bytes` is the stored form of, if there is one.
pub open spec fn identity_of(bytes: Seq<u8>) -> Option<Identity> {
    if exists|identity: Identity| identity_bytes(identity) == bytes {
        Some(choose|identity: Identity| identity_bytes(identity) == bytes)
    } else {
        None
    }
}

/// Encoding an identity and decoding the bytes gives the identity back.
pub proof fn lemma_identity_round_trip(identity: Identity)
    ensures
        identity_of(identity_bytes(identity)) == Some(identity),
{
    let found = choose|found: Identity| identity_bytes(found) == identity_bytes(identity);
    lemma_identity_bytes_injective(found, identity);
}

/// Writes an identity in its stored form.
pub fn encode_identity(identity: &Identity) -> (bytes: Vec<u8>)
    ensures
        bytes@ == identity_bytes(*identity),
{
    let mut bytes: Vec<u8> = Vec::new();
    append(&mut bytes, &identity.keypair.secret.0);
    append(&mut bytes, &identity.keypair.public.0);
    assert(bytes@ =~= identity_bytes(*identity));
    bytes
}

/// Reads an identity from its stored form. Anything but 64 bytes is refused.
pub fn decode_identity(bytes: &[u8]) -> (identity: Option<Identity>)
    ensures
        identity == identity_of(bytes@),
        identity is Some <==> bytes@.len() == 64,
{
    if bytes.len() != 64 {
        proof {
            assert forall|other: Identity| identity_bytes(other) != bytes@ by {
                lemma_identity_bytes_injective(other, other);
            }
        }
        return None;
    }
    let identity = Identity {
        keypair: Keypair {
            secret: SecretKey(take_array::<32>(bytes, 0)),
            public: PublicKey(take_array::<32>(bytes, 32)),
        },
    };
    proof {
        assert(identity_bytes(identity) =~= bytes@);
        lemma_identity_round_trip(identity);
    }
    Some(identity)
}

/// The key of a transaction's record: the owning actor's id, then the index
/// in big-endian.
pub open spec fn transaction_key(id: TransactionId) -> Seq<u8> {
    id.actor@ + u64_be(id.index)
}

/// A transaction's key has 40 bytes and determines the actor and the index.
pub proof fn lemma_transaction_key_injective(a: TransactionId, b: TransactionId)
    ensures
        transaction_key(a).len() == 40,
        transaction_key(a) == transaction_key(b) ==> a == b,
{
    lemma_u64_be_injective(a.index, b.index);
    if transaction_key(a) == transaction_key(b) {
        assert(a.actor@ =~= transaction_key(a).subrange(0, 32));
        assert(b.actor@ =~= transaction_key(b).subrange(0, 32));
        assert(u64_be(a.index) =~= transaction_key(a).subrange(32, 40));
        assert(u64_be(b.index) =~= transaction_key(b).subrange(32, 40));
        lemma_actor_id_by_bytes(a.actor, b.actor);
    }
}

/// The position that `key` is the key of, if there is one.
pub open spec fn transaction_id_of(key: Seq<u8>) -> Option<TransactionId> {
    if exists|id: TransactionId| transaction_key(id) == key {
        Some(choose|id: TransactionId| transaction_key(id) == key)
    } else {
        None
    }
}

/// Making a key and reading it gives the position back.
pub proof fn lemma_transaction_key_round_trip(id: TransactionId)
    ensures
        transaction_id_of(transaction_key(id)) == Some(id),
{
    let found = choose|found: TransactionId| transaction_key(found) == transaction_key(id);
    lemma_transaction_key_injective(found, id);
}

impl TransactionId {
    /// The key under which the transaction at this position is stored.
    pub fn to_key(&self) -> (key: Vec<u8>)
        ensures
            key@ == transaction_key(*self),
    {
        let mut key: Vec<u8> = Vec::new();
        append(&mut key, &self.actor.0);
        append_u64_be(&mut key, self.index);
        key
    }

    /// Reads a position from a key. Every key of 40 bytes names one.
    pub fn from_key(key: &[u8]) -> (id: Option<TransactionId>)
        ensures
            id == transaction_id_of(key@),
            id is Some <==> key@.len() == 40,
    {
        if key.len() != 40 {
            proof {
                assert forall|other: TransactionId| transaction_key(other) != key@ by {
                    lemma_transaction_key_injective(other, other);
                }
            }
            return None;
        }
        let actor = ActorId(take_array::<32>(key, 0));
        let index = read_u64_be(slice_subrange(key, 32, 40));
        let id = TransactionId { actor, index };
        proof {
            assert(transaction_key(id) =~= key@);
            lemma_transaction_key_round_trip(id);
        }
        Some(id)
    }
}

/// What a signature over a transaction covers: the length of the payload in
/// eight bytes, the payload, and the nonce in eight bytes.
pub open spec fn signed_bytes(message: Seq<u8>, nonce: u64) -> Seq<u8> {
    spec_u64_to_le_bytes(message.len() as u64) + message + spec_u64_to_le_bytes(nonce)
}

/// The stored form of a transaction: the bytes that are signed, then the
/// signature.
pub open spec fn transaction_bytes(transaction: TransactionView) -> Seq<u8> {
    signed_bytes(transaction.message, transaction.nonce) + transaction.signature@
}

/// Whether a transaction's payload is short enough for its length to be written.
/// Every payload held in memory is.
pub open spec fn storable(transaction: TransactionView) -> bool {
    transaction.message.len() <= u64::MAX
}

/// Where the fields of a stored transaction lie.
pub proof fn lemma_transaction_bytes_shape(transaction: TransactionView)
    requires
        storable(transaction),
    ensures
        ({
            let length = transaction.message.len() as int;
            let all = transaction_bytes(transaction);
            &&& all.len() == 80 + length
            &&& spec_u64_from_le_bytes(all.subrange(0, 8)) == length
            &&& all.subrange(8, 8 + length) == transaction.message
            &&& spec_u64_from_le_bytes(all.subrange(8 + length, 16 + length))
                == transaction.nonce
            &&& all.subrange(16 + length, 80 + length) == transaction.signature@
        }),
{
    lemma_auto_spec_u64_to_from_le_bytes();
    let length = transaction.message.len() as int;
    let all = transaction_bytes(transaction);
    assert(all.subrange(0, 8) =~= spec_u64_to_le_bytes(length as u64));
    assert(all.subrange(8, 8 + length) =~= transaction.message);
    assert(all.subrange(8 + length, 16 + length) =~= spec_u64_to_le_bytes(transaction.nonce));
    assert(all.subrange(16 + length, 80 + length) =~= transaction.signature@);
}

/// A transaction's stored form determines the transaction.
pub proof fn lemma_transaction_bytes_injective(a: TransactionView, b: TransactionView)
    requires
        storable(a),
        storable(b),
        transaction_bytes(a) == transaction_bytes(b),
    ensures
        a == b,
{
    lemma_transaction_bytes_shape(a);
    lemma_transaction_bytes_shape(b);
    lemma_signature_by_bytes(a.signature, b.signature);
}

/// The transaction that `bytes` is the stored form of, if there is one.
pub open spec fn transaction_of(bytes: Seq<u8>) -> Option<TransactionView> {
    if exists|transaction: TransactionView|
        storable(transaction) && transaction_bytes(transaction) == bytes {
        Some(
            choose|transaction: TransactionView|
                storable(transaction) && transaction_bytes(transaction) == bytes,
        )
    } else {
        None
    }
}

/// Encoding a transaction and decoding the bytes gives the transaction back.
pub proof fn lemma_transaction_round_trip(transaction: TransactionView)
    requires
        storable(transaction),
    ensures
        transaction_of(transaction_bytes(transaction)) == Some(transaction),
{
    let found = choose|found: TransactionView|
        storable(found) && transaction_bytes(found) == transaction_bytes(transaction);
    lemma_transaction_bytes_injective(found, transaction);
}

impl Transaction {
    /// The bytes that this transaction's signature has to cover.
    pub fn signed_bytes(&self) -> (bytes: Vec<u8>)
        ensures
            bytes@ == signed_bytes(self@.message, self@.nonce),
    {
        let mut bytes: Vec<u8> = u64_to_le_bytes(self.message.len() as u64);
        append(&mut bytes, self.message.as_slice());
        let nonce = u64_to_le_bytes(self.nonce);
        append(&mut bytes, nonce.as_slice());
        bytes
    }

    /// Checks the signature over payload and nonce under `public_key`.
    pub fn verify(&self, public_key: &PublicKey) -> (valid: bool)
        ensures
            valid == self@.signed_by(public_key@),
    {
        let bytes = self.signed_bytes();
        public_key.verifies(bytes.as_slice(), &self.signature)
    }
}

impl TransactionView {
    /// Whether the signature verifies over payload and nonce under `public_key`.
    pub open spec fn signed_by(self, public_key: Seq<u8>) -> bool {
        ed25519_verifies(public_key, signed_bytes(self.message, self.nonce), self.signature@)
    }
}

/// Writes a transaction in its stored form.
pub fn encode_transaction(transaction: &Transaction) -> (bytes: Vec<u8>)
    ensures
        bytes@ == transaction_bytes(transaction@),
{
    let mut bytes = transaction.signed_bytes();
    append(&mut bytes, &transaction.signature.0);
    bytes
}

/// Reads a transaction from its stored form. The bytes are refused unless
/// they are exactly a length, a payload of that length, a nonce and a
/// signature.
pub fn decode_transaction(bytes: &[u8]) -> (transaction: Option<Transaction>)
    ensures
        match transaction {
            Some(transaction) => transaction_of(bytes@) == Some(transaction@),
            None => transaction_of(bytes@) is None,
        },
{
    let total = bytes.len();
    if total < 80 {
        proof {
            assert forall|other: TransactionView| storable(other) implies transaction_bytes(other)
                != bytes@ by {
                lemma_transaction_bytes_shape(other);
            }
        }
        return None;
    }
    let length = u64_from_le_bytes(slice_subrange(bytes, 0, 8));
    if length != (total - 80) as u64 {
        proof {
            assert forall|other: TransactionView| storable(other) implies transaction_bytes(other)
                != bytes@ by {
                lemma_transaction_bytes_shape(other);
            }
        }
        return None;
    }
    let length = total - 80;
    let message = slice_to_vec(slice_subrange(bytes, 8, 8 + length));
    let nonce = u64_from_le_bytes(slice_subrange(bytes, 8 + length, 16 + length));
    let signature = Signature(take_array::<64>(bytes, 16 + length));
    let transaction = Transaction { message, nonce, signature };
    proof {
        lemma_auto_spec_u64_to_from_le_bytes();
        assert(spec_u64_to_le_bytes(spec_u64_from_le_bytes(bytes@.subrange(0, 8)))
            == bytes@.subrange(0, 8));
        assert(spec_u64_to_le_bytes(
            spec_u64_from_le_bytes(bytes@.subrange(8 + length, 16 + length)),
        ) == bytes@.subrange(8 + length, 16 + length));
        assert(transaction_bytes(transaction@) =~= bytes@);
        lemma_transaction_round_trip(transaction@);
    }
    Some(transaction)
}

/// An optional public key: a byte that says whether it is there, then the key.
pub open spec fn public_key_option_bytes(public_key: Option<PublicKey>) -> Seq<u8> {
    match public_key {
        None => seq![0u8],
        Some(public_key) => seq![1u8] + public_key@,
    }
}

/// An address: 4 or 6 for the family, the host's octets, the port.
pub open spec fn address_bytes(address: SocketAddress) -> Seq<u8> {
    match address {
        SocketAddress::V4 { octets, port } => seq![4u8] + octets@ + spec_u16_to_le_bytes(port),
        SocketAddress::V6 { octets, port } => seq![6u8] + octets@ + spec_u16_to_le_bytes(port),
    }
}

/// A time: the seconds in eight bytes, in two's complement, then the
/// nanoseconds in four.
pub open spec fn timestamp_bytes(time: Timestamp) -> Seq<u8> {
    spec_u64_to_le_bytes(time.seconds as u64) + spec_u32_to_le_bytes(time.nanoseconds)
}

/// The stored form of an actor's record: a byte for the variant, then the
/// public key if it is known, the address and the time of last contact.
pub open spec fn actor_bytes(actor: Actor) -> Seq<u8> {
    match actor {
        Actor::Allowed { public_key, last_known_address, last_seen } => seq![0u8]
            + public_key_option_bytes(public_key) + address_bytes(last_known_address)
            + timestamp_bytes(last_seen),
    }
}

/// The number of octets in an address's host.
pub open spec fn host_length(address: SocketAddress) -> int {
    match address {
        SocketAddress::V4 { .. } => 4,
        SocketAddress::V6 { .. } => 16,
    }
}

/// The octets of an address's host.
pub open spec fn host_octets(address: SocketAddress) -> Seq<u8> {
    match address {
        SocketAddress::V4 { octets, .. } => octets@,
        SocketAddress::V6 { octets, .. } => octets@,
    }
}

/// The port of an address.
pub open spec fn port_of(address: SocketAddress) -> u16 {
    match address {
        SocketAddress::V4 { port, .. } => port,
        SocketAddress::V6 { port, .. } => port,
    }
}

/// The public key on an actor's record.
pub open spec fn key_of(actor: Actor) -> Option<PublicKey> {
    match actor {
        Actor::Allowed { public_key, .. } => public_key,
    }
}

/// The address on an actor's record.
pub open spec fn address_of(actor: Actor) -> SocketAddress {
    match actor {
        Actor::Allowed { last_known_address, .. } => last_known_address,
    }
}

/// The time of last contact on an actor's record.
pub open spec fn last_seen_of(actor: Actor) -> Timestamp {
    match actor {
        Actor::Allowed { last_seen, .. } => last_seen,
    }
}

/// Where the fields of a stored actor record lie.
pub proof fn lemma_actor_bytes_shape(actor: Actor)
    ensures
        ({
            let all = actor_bytes(actor);
            let at: int = if key_of(actor) is Some {
                34
            } else {
                2
            };
            let end = at + 1 + host_length(address_of(actor));
            &&& all.len() == end + 14
            &&& all[0] == 0
            &&& all[1] == if key_of(actor) is Some {
                1u8
            } else {
                0u8
            }
            &&& key_of(actor) is Some ==> all.subrange(2, 34) == key_of(actor).unwrap()@
            &&& all[at] == if address_of(actor) is V4 {
                4u8
            } else {
                6u8
            }
            &&& all.subrange(at + 1, end) == host_octets(address_of(actor))
            &&& spec_u16_from_le_bytes(all.subrange(end, end + 2)) == port_of(address_of(actor))
            &&& spec_u64_from_le_bytes(all.subrange(end + 2, end + 10)) == last_seen_of(
                actor,
            ).seconds as u64
            &&& spec_u32_from_le_bytes(all.subrange(end + 10, end + 14)) == last_seen_of(
                actor,
            ).nanoseconds
        }),
{
    lemma_auto_spec_u16_to_from_le_bytes();
    lemma_auto_spec_u32_to_from_le_bytes();
    lemma_auto_spec_u64_to_from_le_bytes();
    let all = actor_bytes(actor);
    let address = address_of(actor);
    let time = last_seen_of(actor);
    let at: int = if key_of(actor) is Some {
        34
    } else {
        2
    };
    let end = at + 1 + host_length(address);
    assert(host_octets(address).len() == host_length(address));
    if key_of(actor) is Some {
        assert(all.subrange(2, 34) =~= key_of(actor).unwrap()@);
    }
    assert(all.subrange(at + 1, end) =~= host_octets(address));
    assert(all.subrange(end, end + 2) =~= spec_u16_to_le_bytes(port_of(address)));
    assert(all.subrange(end + 2, end + 10) =~= spec_u64_to_le_bytes(time.seconds as u64));
    assert(all.subrange(end + 10, end + 14) =~= spec_u32_to_le_bytes(time.nanoseconds));
}

/// Two's complement loses nothing of a signed integer.
pub proof fn lemma_seconds_by_bits(a: i64, b: i64)
    ensures
        ((a as u64) as i64) == a,
        a as u64 == b as u64 ==> a == b,
{
    assert(((a as u64) as i64) == a) by (bit_vector);
    assert(a as u64 == b as u64 ==> a == b) by (bit_vector);
}

/// An actor record's stored form determines the record.
pub proof fn lemma_actor_bytes_injective(a: Actor, b: Actor)
    requires
        actor_bytes(a) == actor_bytes(b),
    ensures
        a == b,
{
    lemma_actor_bytes_shape(a);
    lemma_actor_bytes_shape(b);
    lemma_seconds_by_bits(last_seen_of(a).seconds, last_seen_of(b).seconds);
    if key_of(a) is Some {
        lemma_public_key_by_bytes(key_of(a).unwrap(), key_of(b).unwrap());
    }
    match (address_of(a), address_of(b)) {
        (SocketAddress::V4 { octets: x, .. }, SocketAddress::V4 { octets: y, .. }) => {
            lemma_array_by_bytes(x, y);
        },
        (SocketAddress::V6 { octets: x, .. }, SocketAddress::V6 { octets: y, .. }) => {
            lemma_array_by_bytes(x, y);
        },
        _ => {},
    }
}

/// The actor record that `bytes` is the stored form of, if there is one.
pub open spec fn actor_of(bytes: Seq<u8>) -> Option<Actor> {
    if exists|actor: Actor| actor_bytes(actor) == bytes {
        Some(choose|actor: Actor| actor_bytes(actor) == bytes)
    } else {
        None
    }
}

/// Encoding an actor record and decoding the bytes gives the record back.
pub proof fn lemma_actor_round_trip(actor: Actor)
    ensures
        actor_of(actor_bytes(actor)) == Some(actor),
{
    let found = choose|found: Actor| actor_bytes(found) == actor_bytes(actor);
    lemma_actor_bytes_injective(found, actor);
}

/// Writes an actor record in its stored form.
pub fn encode_actor(actor: &Actor) -> (bytes: Vec<u8>)
    ensures
        bytes@ == actor_bytes(*actor),
{
    let mut bytes: Vec<u8> = Vec::new();
    match actor {
        Actor::Allowed { public_key, last_known_address, last_seen } => {
            bytes.push(0);
            match public_key {
                None => {
                    bytes.push(0);
                },
                Some(public_key) => {
                    bytes.push(1);
                    append(&mut bytes, &public_key.0);
                },
            }
            assert(bytes@ =~= seq![0u8] + public_key_option_bytes(*public_key));
            match last_known_address {
                SocketAddress::V4 { octets, port } => {
                    bytes.push(4);
                    append(&mut bytes, octets);
                    let port = u16_to_le_bytes(*port);
                    append(&mut bytes, port.as_slice());
                },
                SocketAddress::V6 { octets, port } => {
                    bytes.push(6);
                    append(&mut bytes, octets);
                    let port = u16_to_le_bytes(*port);
                    append(&mut bytes, port.as_slice());
                },
            }
            assert(bytes@ =~= seq![0u8] + public_key_option_bytes(*public_key) + address_bytes(
                *last_known_address,
            ));
            let seconds = u64_to_le_bytes(last_seen.seconds as u64);
            append(&mut bytes, seconds.as_slice());
            let nanoseconds = u32_to_le_bytes(last_seen.nanoseconds);
            append(&mut bytes, nanoseconds.as_slice());
            assert(bytes@ =~= actor_bytes(*actor));
        },
    }
    bytes
}

/// Reads an actor record from its stored form. The bytes are refused unless
/// they are exactly one record.
pub fn decode_actor(bytes: &[u8]) -> (actor: Option<Actor>)
    ensures
        actor == actor_of(bytes@),
{
    let total = bytes.len();
    if total < 2 || bytes[0] != 0 || bytes[1] > 1 {
        proof {
            assert forall|other: Actor| actor_bytes(other) != bytes@ by {
                lemma_actor_bytes_shape(other);
            }
        }
        return None;
    }
    let at: usize = if bytes[1] == 1 {
        34
    } else {
        2
    };
    if total <= at || (bytes[at] != 4 && bytes[at] != 6) {
        proof {
            assert forall|other: Actor| actor_bytes(other) != bytes@ by {
                lemma_actor_bytes_shape(other);
            }
        }
        return None;
    }
    let end: usize = if bytes[at] == 4 {
        at + 5
    } else {
        at + 17
    };
    if total != end + 14 {
        proof {
            assert forall|other: Actor| actor_bytes(other) != bytes@ by {
                lemma_actor_bytes_shape(other);
            }
        }
        return None;
    }
    let public_key = if bytes[1] == 1 {
        Some(PublicKey(take_array::<32>(bytes, 2)))
    } else {
        None
    };
    let port = u16_from_le_bytes(slice_subrange(bytes, end, end + 2));
    let last_known_address = if bytes[at] == 4 {
        SocketAddress::V4 { octets: take_array::<4>(bytes, at + 1), port }
    } else {
        SocketAddress::V6 { octets: take_array::<16>(bytes, at + 1), port }
    };
    let raw_seconds = u64_from_le_bytes(slice_subrange(bytes, end + 2, end + 10));
    let seconds = #[verifier::truncate] (raw_seconds as i64);
    let nanoseconds = u32_from_le_bytes(slice_subrange(bytes, end + 10, end + 14));
    let actor = Actor::Allowed {
        public_key,
        last_known_address,
        last_seen: Timestamp { seconds, nanoseconds },
    };
    proof {
        lemma_auto_spec_u16_to_from_le_bytes();
        lemma_auto_spec_u32_to_from_le_bytes();
        lemma_auto_spec_u64_to_from_le_bytes();
        assert(seconds as u64 == raw_seconds) by (bit_vector)
            requires
                seconds == raw_seconds as i64,
        ;
        assert(spec_u16_to_le_bytes(
            spec_u16_from_le_bytes(bytes@.subrange(end as int, end + 2)),
        ) == bytes@.subrange(end as int, end + 2));
        assert(spec_u64_to_le_bytes(
            spec_u64_from_le_bytes(bytes@.subrange(end + 2, end + 10)),
        ) == bytes@.subrange(end + 2, end + 10));
        assert(spec_u32_to_le_bytes(
            spec_u32_from_le_bytes(bytes@.subrange(end + 10, end + 14)),
        ) == bytes@.subrange(end + 10, end + 14));
        assert(actor_bytes(actor) =~= bytes@);
        lemma_actor_round_trip(actor);
    }
    Some(actor)
}

/// The lower-case hexadecimal digit of a value below sixteen.
pub open spec fn hex_digit(nibble: int) -> char {
    seq!['0', '1', '2', '3', '4', '5', '6', '7', '8', '9', 'a', 'b', 'c', 'd', 'e', 'f'][nibble]
}

/// Two lower-case hexadecimal digits for each byte, the high one first.
pub open spec fn hex_lower(bytes: Seq<u8>) -> Seq<char> {
    Seq::new(
        2 * bytes.len(),
        |i: int|
            if i % 2 == 0 {
                hex_digit(bytes[i / 2] as int / 16)
            } else {
                hex_digit(bytes[i / 2] as int % 16)
            },
    )
}

/// The text of one hexadecimal digit.
fn hex_digit_text(nibble: u8) -> (text: &'static str)
    requires
        nibble < 16,
    ensures
        text@ == seq![hex_digit(nibble as int)],
{
    proof {
        reveal_strlit("0");
        reveal_strlit("1");
        reveal_strlit("2");
        reveal_strlit("3");
        reveal_strlit("4");
        reveal_strlit("5");
        reveal_strlit("6");
        reveal_strlit("7");
        reveal_strlit("8");
        reveal_strlit("9");
        reveal_strlit("a");
        reveal_strlit("b");
        reveal_strlit("c");
        reveal_strlit("d");
        reveal_strlit("e");
        reveal_strlit("f");
    }
    let text = match nibble {
        0 => "0",
        1 => "1",
        2 => "2",
        3 => "3",
        4 => "4",
        5 => "5",
        6 => "6",
        7 => "7",
        8 => "8",
        9 => "9",
        10 => "a",
        11 => "b",
        12 => "c",
        13 => "d",
        14 => "e",
        _ => "f",
    };
    assert(text@ =~= seq![hex_digit(nibble as int)]);
    text
}

/// Writes bytes in lower-case hexadecimal, as keys are shown in errors.
pub fn hex_encode(data: &[u8]) -> (text: String)
    ensures
        text@ == hex_lower(data@),
{
    let mut text = String::from_str("");
    proof {
        reveal_strlit("");
    }
    let mut i: usize = 0;
    while i < data.len()
        invariant
            i <= data.len(),
            text@ == hex_lower(data@.subrange(0, i as int)),
        decreases data.len() - i,
    {
        let byte = data[i];
        text.append(hex_digit_text(byte / 16));
        text.append(hex_digit_text(byte % 16));
        i += 1;
        assert(text@ =~= hex_lower(data@.subrange(0, i as int)));
    }
    assert(data@.subrange(0, i as int) =~= data@);
    text
}

} // verus!
