use overlay_node::codec::{
    append, append_u64_be, decode_actor, decode_identity, decode_transaction, encode_actor,
    encode_identity, encode_transaction, hex_encode, read_u64_be,
};
use overlay_node::model::{
    Actor, ActorId, Identity, Keypair, PublicKey, SecretKey, Signature, SocketAddress, Timestamp,
    Transaction, TransactionId,
};

fn identity() -> Identity {
    Identity { keypair: Keypair { secret: SecretKey([7; 32]), public: PublicKey([9; 32]) } }
}

fn transaction() -> Transaction {
    Transaction { message: vec![1, 2, 3], nonce: 0x0102030405060708, signature: Signature([5; 64]) }
}

fn actors() -> Vec<Actor> {
    let v4 = SocketAddress::V4 { octets: [127, 0, 0, 1], port: 8080 };
    let v6 = SocketAddress::V6 { octets: [0xFE; 16], port: 65535 };
    let early = Timestamp { seconds: -1, nanoseconds: 999_999_999 };
    let late = Timestamp { seconds: 1_600_000_000, nanoseconds: 0 };
    vec![
        Actor::Allowed { public_key: None, last_known_address: v4, last_seen: late },
        Actor::Allowed { public_key: None, last_known_address: v6, last_seen: early },
        Actor::Allowed { public_key: Some(PublicKey([3; 32])), last_known_address: v4, last_seen: early },
        Actor::Allowed { public_key: Some(PublicKey([4; 32])), last_known_address: v6, last_seen: late },
        Actor::Allowed {
            public_key: Some(PublicKey([0; 32])),
            last_known_address: SocketAddress::V4 { octets: [0; 4], port: 0 },
            last_seen: Timestamp { seconds: i64::MIN, nanoseconds: u32::MAX },
        },
        Actor::Allowed {
            public_key: None,
            last_known_address: SocketAddress::V6 { octets: [0; 16], port: 1 },
            last_seen: Timestamp { seconds: i64::MAX, nanoseconds: 1 },
        },
    ]
}

#[test]
fn append_adds_the_bytes_at_the_end() {
    let mut out = vec![1_u8];
    append(&mut out, &[2, 3]);
    append(&mut out, &[]);
    assert_eq!(out, vec![1, 2, 3]);
}

#[test]
fn big_endian_puts_the_high_byte_first() {
    let mut out = vec![0xAA_u8];
    append_u64_be(&mut out, 0x0102030405060708);
    assert_eq!(out, vec![0xAA, 1, 2, 3, 4, 5, 6, 7, 8]);
    assert_eq!(read_u64_be(&[1, 2, 3, 4, 5, 6, 7, 8]), 0x0102030405060708);
    assert_eq!(read_u64_be(&[0; 8]), 0);
    assert_eq!(read_u64_be(&[0xFF; 8]), u64::MAX);
}

#[test]
fn hex_is_two_lower_case_digits_a_byte() {
    assert_eq!(hex_encode(&[]), "");
    assert_eq!(hex_encode(&[0]), "00");
    assert_eq!(hex_encode(&[1, 2, 3, 15, 16]), "0102030f10");
    assert_eq!(hex_encode(&[0xAB, 0xCD, 0xEF, 0x09, 0x90, 0xFF]), "abcdef0990ff");
}

#[test]
fn hex_agrees_with_the_hex_crate_on_every_byte() {
    let all: Vec<u8> = (0..=255).collect();
    assert_eq!(hex_encode(&all), hex::encode(&all));
    for byte in all {
        assert_eq!(hex_encode(&[byte]), hex::encode([byte]));
    }
}

#[test]
fn identity_is_stored_as_secret_then_public() {
    let mut expected = vec![7_u8; 32];
    expected.extend_from_slice(&[9; 32]);
    assert_eq!(encode_identity(&identity()), expected);
}

#[test]
fn identity_round_trip() {
    let bytes = encode_identity(&identity());
    assert_eq!(decode_identity(&bytes), Some(identity()));
}

#[test]
fn identity_of_another_length_is_refused() {
    assert_eq!(decode_identity(&[]), None);
    assert_eq!(decode_identity(&[0; 63]), None);
    assert_eq!(decode_identity(&[0; 65]), None);
    assert!(decode_identity(&[0; 64]).is_some());
}

#[test]
fn transaction_key_is_actor_then_big_endian_index() {
    let id = TransactionId { actor: ActorId([0x11; 32]), index: 258 };
    let mut expected = vec![0x11_u8; 32];
    expected.extend_from_slice(&[0, 0, 0, 0, 0, 0, 1, 2]);
    assert_eq!(id.to_key(), expected);
}

#[test]
fn transaction_key_round_trip() {
    for index in [0, 1, 255, 256, u64::MAX - 1, u64::MAX] {
        let id = TransactionId { actor: ActorId([0x42; 32]), index };
        assert_eq!(TransactionId::from_key(&id.to_key()), Some(id));
    }
}

#[test]
fn transaction_keys_sort_by_index() {
    let low = TransactionId { actor: ActorId([1; 32]), index: 255 }.to_key();
    let high = TransactionId { actor: ActorId([1; 32]), index: 256 }.to_key();
    assert!(low < high);
}

#[test]
fn transaction_key_of_another_length_is_refused() {
    assert_eq!(TransactionId::from_key(&[0; 39]), None);
    assert_eq!(TransactionId::from_key(&[0; 41]), None);
    assert_eq!(TransactionId::from_key(&[]), None);
}

#[test]
fn signed_bytes_are_length_payload_nonce() {
    assert_eq!(
        transaction().signed_bytes(),
        vec![3, 0, 0, 0, 0, 0, 0, 0, 1, 2, 3, 8, 7, 6, 5, 4, 3, 2, 1]
    );
}

#[test]
fn signed_bytes_tell_payload_and_nonce_apart() {
    let a = Transaction { message: vec![1], nonce: 2, signature: Signature([0; 64]) };
    let b = Transaction { message: vec![1, 2], nonce: 0, signature: Signature([0; 64]) };
    assert_ne!(a.signed_bytes(), b.signed_bytes());
}

#[test]
fn transaction_is_stored_as_signed_bytes_then_signature() {
    let mut expected = vec![3, 0, 0, 0, 0, 0, 0, 0, 1, 2, 3, 8, 7, 6, 5, 4, 3, 2, 1];
    expected.extend_from_slice(&[5; 64]);
    assert_eq!(encode_transaction(&transaction()), expected);
}

#[test]
fn transaction_round_trip() {
    let bytes = encode_transaction(&transaction());
    assert_eq!(decode_transaction(&bytes), Some(transaction()));
    let empty = Transaction { message: vec![], nonce: u64::MAX, signature: Signature([0xEE; 64]) };
    assert_eq!(decode_transaction(&encode_transaction(&empty)), Some(empty));
    let long = Transaction { message: vec![0x5A; 1000], nonce: 0, signature: Signature([1; 64]) };
    assert_eq!(decode_transaction(&encode_transaction(&long)), Some(long));
}

#[test]
fn corrupt_transaction_is_refused() {
    let bytes = encode_transaction(&transaction());
    assert_eq!(decode_transaction(&bytes[..bytes.len() - 1]), None);
    let mut longer = bytes.clone();
    longer.push(0);
    assert_eq!(decode_transaction(&longer), None);
    let mut wrong_length = bytes.clone();
    wrong_length[0] = 4;
    assert_eq!(decode_transaction(&wrong_length), None);
    let mut huge_length = bytes.clone();
    huge_length[7] = 0xFF;
    assert_eq!(decode_transaction(&huge_length), None);
    assert_eq!(decode_transaction(&[]), None);
    assert_eq!(decode_transaction(&[0; 79]), None);
    assert!(decode_transaction(&[0; 80]).is_some());
}

#[test]
fn actor_is_stored_field_by_field() {
    let actor = Actor::Allowed {
        public_key: Some(PublicKey([3; 32])),
        last_known_address: SocketAddress::V4 { octets: [127, 0, 0, 1], port: 0x1F90 },
        last_seen: Timestamp { seconds: -2, nanoseconds: 0x01020304 },
    };
    let mut expected = vec![0_u8, 1];
    expected.extend_from_slice(&[3; 32]);
    expected.extend_from_slice(&[4, 127, 0, 0, 1, 0x90, 0x1F]);
    expected.extend_from_slice(&[0xFE, 0xFF, 0xFF, 0xFF, 0xFF, 0xFF, 0xFF, 0xFF]);
    expected.extend_from_slice(&[4, 3, 2, 1]);
    assert_eq!(encode_actor(&actor), expected);

    let placeholder = Actor::Allowed {
        public_key: None,
        last_known_address: SocketAddress::V6 { octets: [0xFE; 16], port: 1 },
        last_seen: Timestamp { seconds: 1, nanoseconds: 0 },
    };
    let mut expected = vec![0_u8, 0, 6];
    expected.extend_from_slice(&[0xFE; 16]);
    expected.extend_from_slice(&[1, 0]);
    expected.extend_from_slice(&[1, 0, 0, 0, 0, 0, 0, 0, 0, 0, 0, 0]);
    assert_eq!(encode_actor(&placeholder), expected);
}

#[test]
fn actor_round_trip() {
    for actor in actors() {
        assert_eq!(decode_actor(&encode_actor(&actor)), Some(actor));
    }
}

#[test]
fn corrupt_actor_is_refused() {
    assert_eq!(decode_actor(&[]), None);
    assert_eq!(decode_actor(&[0]), None);
    for actor in actors() {
        let bytes = encode_actor(&actor);
        assert_eq!(decode_actor(&bytes[..bytes.len() - 1]), None);
        let mut longer = bytes.clone();
        longer.push(0);
        assert_eq!(decode_actor(&longer), None);
        let mut variant = bytes.clone();
        variant[0] = 1;
        assert_eq!(decode_actor(&variant), None);
        let mut presence = bytes.clone();
        presence[1] = 2;
        assert_eq!(decode_actor(&presence), None);
        let at = if bytes[1] == 1 { 34 } else { 2 };
        let mut family = bytes.clone();
        family[at] = 5;
        assert_eq!(decode_actor(&family), None);
        let mut other_family = bytes.clone();
        other_family[at] = if bytes[at] == 4 { 6 } else { 4 };
        assert_eq!(decode_actor(&other_family), None);
    }
}
