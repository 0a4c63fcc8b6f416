use ed25519_dalek::Signer;
use overlay_node::database::{Database, Record, StepOutcome};
use overlay_node::model::{
    Actor, ActorId, Identity, Keypair, Signature, SocketAddress, Timestamp, Transaction,
    TransactionId,
};
use overlay_node::overlay::{Connection, Overlay};
use overlay_node::protocol::{Admission, ConnectionState, Effect, Input, Message, Step};

const PEER: SocketAddress = SocketAddress::V4 { octets: [192, 168, 0, 7], port: 7000 };
const NOW: Timestamp = Timestamp { seconds: 1_700_000_000, nanoseconds: 1 };

fn database() -> Database {
    let outcomes = vec![
        StepOutcome::Done,
        StepOutcome::Done,
        StepOutcome::Done,
        StepOutcome::Done,
        StepOutcome::Count(0),
        StepOutcome::Count(0),
        StepOutcome::Count(0),
        StepOutcome::Keys(vec![]),
    ];
    Database::sync_new(String::from("target/db"), &outcomes).unwrap()
}

fn started(strike_limit: u32) -> Overlay {
    let mut overlay = Overlay::new(strike_limit);
    overlay.start(Identity { keypair: Keypair::generate() });
    overlay
}

fn sign(keypair: &Keypair, message: &[u8]) -> Signature {
    let mut bytes = [0_u8; 64];
    bytes[..32].copy_from_slice(&keypair.secret.0);
    bytes[32..].copy_from_slice(&keypair.public.0);
    let keypair = ed25519_dalek::Keypair::from_bytes(&bytes).unwrap();
    Signature(keypair.sign(message).to_bytes())
}

fn signed(keypair: &Keypair, message: Vec<u8>, nonce: u64) -> Transaction {
    let mut transaction = Transaction { message, nonce, signature: Signature([0; 64]) };
    transaction.signature = sign(keypair, &transaction.signed_bytes());
    transaction
}

fn challenge_of(step: &Step) -> [u8; 8] {
    match step.send {
        Some(Message::Challenge { payload, .. }) => payload,
        _ => panic!("no challenge was sent"),
    }
}

/// Brings a new connection of `peer` up to the point where the policy is asked.
fn authenticate(overlay: &mut Overlay, database: &Database, peer: &Keypair) -> u64 {
    let handle = overlay.connect(PEER).unwrap();
    let id = ActorId::derive(&peer.public);
    let step = overlay
        .receive(database, handle, Message::Identify { public_key: peer.public }, NOW)
        .unwrap();
    let payload = challenge_of(&step);
    let response = Message::ChallengeResponse { id, payload, signature: sign(peer, &payload) };
    let step = overlay.receive(database, handle, response, NOW).unwrap();
    assert_eq!(step.effect, Effect::ConsultPolicy { id, public_key: peer.public });
    handle
}

/// Brings a new connection of `peer` up to `Active`.
fn activate(overlay: &mut Overlay, database: &Database, peer: &Keypair) -> u64 {
    let handle = authenticate(overlay, database, peer);
    let step = overlay.decide(handle, Admission::Allow, NOW).unwrap();
    assert!(matches!(step.effect, Effect::StoreActor { .. }));
    let step = overlay.confirm(database, handle, true).unwrap();
    assert!(matches!(step.send, Some(Message::Allow { .. })));
    handle
}

#[test]
fn a_new_overlay_is_empty_and_not_started() {
    let overlay = Overlay::new(3);
    assert_eq!(overlay.peer_count(), 0);
    assert_eq!(overlay.identity(), None);
    assert!(!overlay.is_denied(&ActorId([0; 32])));
}

#[test]
fn connections_are_refused_before_the_start() {
    let mut overlay = Overlay::new(3);
    assert_eq!(overlay.connect(PEER), None);
    assert_eq!(overlay.peer_count(), 0);
    let identity = Identity { keypair: Keypair::generate() };
    overlay.start(identity);
    assert_eq!(overlay.identity(), Some(identity));
    assert_eq!(overlay.connect(PEER), Some(0));
    assert_eq!(overlay.connect(PEER), Some(1));
    assert_eq!(overlay.peer_count(), 2);
    assert_eq!(
        overlay.connection(1),
        Some(Connection { handle: 1, peer: PEER, state: ConnectionState::Connected })
    );
    assert_eq!(overlay.connection(2), None);
}

#[test]
fn a_step_on_an_unknown_connection_does_nothing() {
    let mut overlay = started(3);
    let database = database();
    assert_eq!(overlay.handle(5, Input::Timeout), None);
    assert_eq!(overlay.decide(5, Admission::Allow, NOW), None);
    assert_eq!(overlay.confirm(&database, 5, true), None);
    let identify = Message::Identify { public_key: Keypair::generate().public };
    assert_eq!(overlay.receive(&database, 5, identify, NOW), None);
    assert_eq!(overlay.peer_count(), 0);
}

#[test]
fn handshake_admits_a_peer_that_signs_the_challenge() {
    let mut overlay = started(3);
    let database = database();
    let peer = Keypair::generate();
    let id = ActorId::derive(&peer.public);
    let handle = overlay.connect(PEER).unwrap();

    let step = overlay
        .receive(&database, handle, Message::Identify { public_key: peer.public }, NOW)
        .unwrap();
    let payload = challenge_of(&step);
    assert_eq!(step.send, Some(Message::Challenge { id, payload }));
    assert_eq!(
        overlay.connection(handle).unwrap().state,
        ConnectionState::Challenged { id, public_key: peer.public, payload }
    );

    let response = Message::ChallengeResponse { id, payload, signature: sign(&peer, &payload) };
    let step = overlay.receive(&database, handle, response, NOW).unwrap();
    assert_eq!(step.state, ConnectionState::Authenticated { id, public_key: peer.public });
    assert_eq!(step.effect, Effect::ConsultPolicy { id, public_key: peer.public });
    assert_eq!(step.send, None);

    let step = overlay.decide(handle, Admission::Allow, NOW).unwrap();
    assert_eq!(step.send, None);
    assert_eq!(
        step.effect,
        Effect::StoreActor {
            id,
            actor: Actor::Allowed {
                public_key: Some(peer.public),
                last_known_address: PEER,
                last_seen: NOW,
            },
        }
    );
    assert_eq!(
        overlay.connection(handle).unwrap().state,
        ConnectionState::Allowed { id, public_key: peer.public }
    );

    let step = overlay.confirm(&database, handle, true).unwrap();
    assert_eq!(step.send, Some(Message::Allow { id, tip: None }));
    assert_eq!(step.effect, Effect::Nothing);
    assert_eq!(
        overlay.connection(handle).unwrap().state,
        ConnectionState::Active { id, public_key: peer.public, strikes: 0 }
    );
}

#[test]
fn challenges_are_fresh() {
    let mut overlay = started(3);
    let database = database();
    let peer = Keypair::generate();
    let mut seen = vec![];
    for _ in 0..4 {
        let handle = overlay.connect(PEER).unwrap();
        let identify = Message::Identify { public_key: peer.public };
        let step = overlay.receive(&database, handle, identify, NOW).unwrap();
        let payload = challenge_of(&step);
        assert!(!seen.contains(&payload));
        seen.push(payload);
    }
}

#[test]
fn a_response_signed_with_another_key_is_denied() {
    let mut overlay = started(3);
    let database = database();
    let peer = Keypair::generate();
    let impostor = Keypair::generate();
    let id = ActorId::derive(&peer.public);
    let handle = overlay.connect(PEER).unwrap();
    let step = overlay
        .receive(&database, handle, Message::Identify { public_key: peer.public }, NOW)
        .unwrap();
    let payload = challenge_of(&step);
    let response = Message::ChallengeResponse { id, payload, signature: sign(&impostor, &payload) };
    let step = overlay.receive(&database, handle, response, NOW).unwrap();
    assert_eq!(
        step,
        Step {
            state: ConnectionState::Closed,
            send: Some(Message::Deny { id }),
            effect: Effect::Nothing,
            close: true,
            denied: None,
        }
    );
    assert_eq!(overlay.connection(handle), None);
    assert_eq!(overlay.peer_count(), 0);
    assert_eq!(overlay.decide(handle, Admission::Allow, NOW), None);
}

#[test]
fn a_replayed_response_is_denied_on_a_new_connection() {
    let mut overlay = started(3);
    let database = database();
    let peer = Keypair::generate();
    let id = ActorId::derive(&peer.public);

    let first = overlay.connect(PEER).unwrap();
    let identify = Message::Identify { public_key: peer.public };
    let step = overlay.receive(&database, first, identify.clone(), NOW).unwrap();
    let payload = challenge_of(&step);
    let response = Message::ChallengeResponse { id, payload, signature: sign(&peer, &payload) };
    assert!(overlay.receive(&database, first, response.clone(), NOW).is_some());

    let second = overlay.connect(PEER).unwrap();
    overlay.receive(&database, second, identify, NOW).unwrap();
    let step = overlay.receive(&database, second, response, NOW).unwrap();
    assert_eq!(step.state, ConnectionState::Closed);
    assert_eq!(step.send, Some(Message::Deny { id }));
}

#[test]
fn a_marked_actor_is_closed_without_a_challenge() {
    let mut overlay = started(3);
    let database = database();
    let peer = Keypair::generate();
    let id = ActorId::derive(&peer.public);
    overlay.deny(id);
    assert!(overlay.is_denied(&id));
    let handle = overlay.connect(PEER).unwrap();
    let step = overlay
        .receive(&database, handle, Message::Identify { public_key: peer.public }, NOW)
        .unwrap();
    assert_eq!(
        step,
        Step {
            state: ConnectionState::Closed,
            send: Some(Message::Deny { id }),
            effect: Effect::Nothing,
            close: true,
            denied: None,
        }
    );
    assert_eq!(overlay.peer_count(), 0);
}

#[test]
fn an_actor_that_the_policy_denied_gets_no_challenge_again() {
    let mut overlay = started(3);
    let database = database();
    let peer = Keypair::generate();
    let id = ActorId::derive(&peer.public);
    let handle = authenticate(&mut overlay, &database, &peer);
    let step = overlay.decide(handle, Admission::Deny, NOW).unwrap();
    assert_eq!(step.send, Some(Message::Deny { id }));
    assert_eq!(step.denied, Some(id));
    assert!(step.close);
    assert!(overlay.is_denied(&id));
    assert_eq!(overlay.peer_count(), 0);

    let again = overlay.connect(PEER).unwrap();
    let step = overlay
        .receive(&database, again, Message::Identify { public_key: peer.public }, NOW)
        .unwrap();
    assert_eq!(step.send, Some(Message::Deny { id }));
    assert_eq!(step.state, ConnectionState::Closed);

    let other = Keypair::generate();
    let handle = overlay.connect(PEER).unwrap();
    let step = overlay
        .receive(&database, handle, Message::Identify { public_key: other.public }, NOW)
        .unwrap();
    assert!(matches!(step.send, Some(Message::Challenge { .. })));
}

#[test]
fn a_peer_whose_record_is_not_stored_is_not_let_in() {
    let mut overlay = started(3);
    let database = database();
    let peer = Keypair::generate();
    let id = ActorId::derive(&peer.public);
    let handle = authenticate(&mut overlay, &database, &peer);
    overlay.decide(handle, Admission::Allow, NOW).unwrap();
    let step = overlay.confirm(&database, handle, false).unwrap();
    assert_eq!(step.send, Some(Message::Deny { id }));
    assert_eq!(step.state, ConnectionState::Closed);
    assert!(step.close);
    assert!(!overlay.is_denied(&id));
    assert_eq!(overlay.peer_count(), 0);
}

#[test]
fn a_push_while_the_record_is_being_stored_is_rejected() {
    let mut overlay = started(3);
    let database = database();
    let peer = Keypair::generate();
    let id = ActorId::derive(&peer.public);
    let handle = authenticate(&mut overlay, &database, &peer);
    overlay.decide(handle, Admission::Allow, NOW).unwrap();
    let push = Message::PushTransaction {
        id: TransactionId { actor: id, index: 0 },
        body: signed(&peer, vec![1], 1),
    };
    let step = overlay.receive(&database, handle, push, NOW).unwrap();
    assert_eq!(step.effect, Effect::Nothing);
    assert_eq!(step.state, ConnectionState::Closed);
}

#[test]
fn a_push_before_admission_is_rejected_though_it_is_valid() {
    let database = database();
    let peer = Keypair::generate();
    let id = ActorId::derive(&peer.public);
    let push = Message::PushTransaction {
        id: TransactionId { actor: id, index: 0 },
        body: signed(&peer, vec![1, 2, 3], 1),
    };

    let mut overlay = started(3);
    let connected = overlay.connect(PEER).unwrap();
    let step = overlay.receive(&database, connected, push.clone(), NOW).unwrap();
    assert_eq!(step.effect, Effect::Nothing);
    assert_eq!(step.state, ConnectionState::Closed);

    let challenged = overlay.connect(PEER).unwrap();
    overlay
        .receive(&database, challenged, Message::Identify { public_key: peer.public }, NOW)
        .unwrap();
    let step = overlay.receive(&database, challenged, push.clone(), NOW).unwrap();
    assert_eq!(step.effect, Effect::Nothing);
    assert_eq!(step.state, ConnectionState::Closed);

    let authenticated = authenticate(&mut overlay, &database, &peer);
    let step = overlay.receive(&database, authenticated, push, NOW).unwrap();
    assert_eq!(step.effect, Effect::Nothing);
    assert_eq!(step.state, ConnectionState::Closed);
    assert_eq!(overlay.peer_count(), 0);
}

#[test]
fn an_admitted_peer_appends_in_order() {
    let mut overlay = started(3);
    let mut database = database();
    let peer = Keypair::generate();
    let id = ActorId::derive(&peer.public);
    let handle = activate(&mut overlay, &database, &peer);

    let first = signed(&peer, vec![1], 10);
    let at = TransactionId { actor: id, index: 0 };
    let push = Message::PushTransaction { id: at, body: first.clone() };
    let step = overlay.receive(&database, handle, push.clone(), NOW).unwrap();
    assert_eq!(step.effect, Effect::Append { id: at, body: first });
    assert_eq!(database.commit(Record::Transaction(at), Ok(())), Ok(()));

    // The same index again, and one too far: both refused, nothing appended.
    let step = overlay.receive(&database, handle, push, NOW).unwrap();
    assert_eq!(step.effect, Effect::Nothing);
    let skip = TransactionId { actor: id, index: 2 };
    let push = Message::PushTransaction { id: skip, body: signed(&peer, vec![3], 12) };
    let step = overlay.receive(&database, handle, push, NOW).unwrap();
    assert_eq!(step.effect, Effect::Nothing);
    assert_eq!(step.state, ConnectionState::Active { id, public_key: peer.public, strikes: 2 });
    assert_eq!(database.tip(&id), Some(0));

    let next = TransactionId { actor: id, index: 1 };
    let second = signed(&peer, vec![2], 11);
    let push = Message::PushTransaction { id: next, body: second.clone() };
    let step = overlay.receive(&database, handle, push, NOW).unwrap();
    assert_eq!(step.effect, Effect::Append { id: next, body: second });
}

#[test]
fn a_push_with_a_bad_signature_or_for_another_actor_is_refused() {
    let mut overlay = started(10);
    let database = database();
    let peer = Keypair::generate();
    let other = Keypair::generate();
    let id = ActorId::derive(&peer.public);
    let handle = activate(&mut overlay, &database, &peer);

    let forged = Message::PushTransaction {
        id: TransactionId { actor: id, index: 0 },
        body: signed(&other, vec![1], 1),
    };
    assert_eq!(overlay.receive(&database, handle, forged, NOW).unwrap().effect, Effect::Nothing);

    let mut tampered = signed(&peer, vec![1], 1);
    tampered.nonce = 2;
    let tampered =
        Message::PushTransaction { id: TransactionId { actor: id, index: 0 }, body: tampered };
    assert_eq!(overlay.receive(&database, handle, tampered, NOW).unwrap().effect, Effect::Nothing);

    let foreign = Message::PushTransaction {
        id: TransactionId { actor: ActorId::derive(&other.public), index: 0 },
        body: signed(&peer, vec![1], 1),
    };
    assert_eq!(overlay.receive(&database, handle, foreign, NOW).unwrap().effect, Effect::Nothing);
    assert_eq!(
        overlay.connection(handle).unwrap().state,
        ConnectionState::Active { id, public_key: peer.public, strikes: 3 }
    );
}

#[test]
fn repeated_invalid_pushes_deny_the_peer() {
    let mut overlay = started(2);
    let database = database();
    let peer = Keypair::generate();
    let id = ActorId::derive(&peer.public);
    let handle = activate(&mut overlay, &database, &peer);
    let bad = Message::PushTransaction {
        id: TransactionId { actor: id, index: 5 },
        body: signed(&peer, vec![1], 1),
    };
    let step = overlay.receive(&database, handle, bad.clone(), NOW).unwrap();
    assert_eq!(step.state, ConnectionState::Active { id, public_key: peer.public, strikes: 1 });
    let step = overlay.receive(&database, handle, bad, NOW).unwrap();
    assert_eq!(step.state, ConnectionState::Closed);
    assert_eq!(step.send, Some(Message::Deny { id }));
    assert!(overlay.is_denied(&id));
    assert_eq!(overlay.peer_count(), 0);
}

#[test]
fn allow_tells_the_tip_of_the_log() {
    let mut overlay = started(3);
    let mut database = database();
    let peer = Keypair::generate();
    let id = ActorId::derive(&peer.public);
    for index in 0..3 {
        let at = TransactionId { actor: id, index };
        assert_eq!(database.commit(Record::Transaction(at), Ok(())), Ok(()));
    }
    let handle = authenticate(&mut overlay, &database, &peer);
    overlay.decide(handle, Admission::Allow, NOW).unwrap();
    let step = overlay.confirm(&database, handle, true).unwrap();
    assert_eq!(step.send, Some(Message::Allow { id, tip: Some(2) }));
}

#[test]
fn an_address_update_is_stored_for_the_active_actor_only() {
    let mut overlay = started(3);
    let database = database();
    let peer = Keypair::generate();
    let id = ActorId::derive(&peer.public);
    let moved = SocketAddress::V6 { octets: [7; 16], port: 1 };
    let later = Timestamp { seconds: NOW.seconds + 60, nanoseconds: 0 };
    let handle = activate(&mut overlay, &database, &peer);

    let update = Message::UpdateActorAddress { id, address: moved };
    let step = overlay.receive(&database, handle, update.clone(), later).unwrap();
    assert_eq!(
        step.effect,
        Effect::StoreActor {
            id,
            actor: Actor::Allowed {
                public_key: Some(peer.public),
                last_known_address: moved,
                last_seen: later,
            },
        }
    );

    let foreign = Message::UpdateActorAddress { id: ActorId([9; 32]), address: moved };
    assert_eq!(overlay.receive(&database, handle, foreign, later).unwrap().effect, Effect::Nothing);

    let fresh = overlay.connect(PEER).unwrap();
    let step = overlay.receive(&database, fresh, update, later).unwrap();
    assert_eq!(step.effect, Effect::Nothing);
    assert_eq!(step.state, ConnectionState::Closed);
}

#[test]
fn messages_that_only_a_node_sends_are_a_violation() {
    let database = database();
    let peer = Keypair::generate();
    let id = ActorId::derive(&peer.public);
    let messages = [
        Message::Challenge { id, payload: [0; 8] },
        Message::Allow { id, tip: None },
        Message::Deny { id },
    ];
    for message in messages {
        let mut overlay = started(3);
        let handle = activate(&mut overlay, &database, &peer);
        let step = overlay.receive(&database, handle, message, NOW).unwrap();
        assert_eq!(step.state, ConnectionState::Closed);
        assert_eq!(overlay.peer_count(), 0);
    }
}

#[test]
fn a_timeout_in_the_challenge_denies() {
    let mut overlay = started(3);
    let database = database();
    let peer = Keypair::generate();
    let id = ActorId::derive(&peer.public);
    let handle = overlay.connect(PEER).unwrap();
    overlay
        .receive(&database, handle, Message::Identify { public_key: peer.public }, NOW)
        .unwrap();
    let step = overlay.handle(handle, Input::Timeout).unwrap();
    assert_eq!(step.send, Some(Message::Deny { id }));
    assert!(step.close);
    assert!(!overlay.is_denied(&id));
    assert_eq!(overlay.peer_count(), 0);
}

#[test]
fn a_closed_transport_removes_the_connection() {
    let mut overlay = started(3);
    let a = overlay.connect(PEER).unwrap();
    let b = overlay.connect(PEER).unwrap();
    let c = overlay.connect(PEER).unwrap();
    let step = overlay.handle(b, Input::TransportClosed).unwrap();
    assert!(!step.close);
    assert_eq!(overlay.peer_count(), 2);
    assert!(overlay.connection(a).is_some());
    assert!(overlay.connection(b).is_none());
    assert!(overlay.connection(c).is_some());
    assert_eq!(overlay.connect(PEER), Some(3));
}

#[test]
fn stop_leaves_no_connection() {
    let mut overlay = started(3);
    let database = database();
    let peer = Keypair::generate();
    let mut expected = vec![];
    for _ in 0..3 {
        expected.push(overlay.connect(PEER).unwrap());
    }
    expected.push(activate(&mut overlay, &database, &peer));
    assert_eq!(overlay.peer_count(), 4);
    let closing = overlay.stop();
    assert_eq!(closing, expected);
    assert_eq!(overlay.peer_count(), 0);
    for handle in closing {
        // Whatever closing them comes to, none of them is live.
        assert_eq!(overlay.connection(handle), None);
        assert_eq!(overlay.handle(handle, Input::TransportClosed), None);
    }
    assert_eq!(overlay.connect(PEER), None);
}

#[test]
fn stop_of_an_empty_overlay_closes_nothing() {
    let mut overlay = started(3);
    assert_eq!(overlay.stop(), Vec::<u64>::new());
    assert_eq!(overlay.peer_count(), 0);
}

#[test]
fn stop_keeps_the_denied_actors() {
    let mut overlay = started(3);
    overlay.deny(ActorId([4; 32]));
    overlay.stop();
    assert!(overlay.is_denied(&ActorId([4; 32])));
    assert!(!overlay.is_denied(&ActorId([5; 32])));
}
