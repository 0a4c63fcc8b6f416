use overlay_node::model::{
    Actor, ActorId, PublicKey, Signature, SocketAddress, Timestamp, Transaction, TransactionId,
};
use overlay_node::protocol::{advance, Admission, ConnectionState, Effect, Input, Message, Step};

const ID: ActorId = ActorId([1; 32]);
const KEY: PublicKey = PublicKey([2; 32]);
const PEER: SocketAddress = SocketAddress::V4 { octets: [10, 0, 0, 2], port: 9000 };
const NOW: Timestamp = Timestamp { seconds: 100, nanoseconds: 7 };

fn transaction() -> Transaction {
    Transaction { message: vec![1, 2, 3], nonce: 1, signature: Signature([5; 64]) }
}

fn denied(id: ActorId, remember: bool) -> Step {
    Step {
        state: ConnectionState::Closed,
        send: Some(Message::Deny { id }),
        effect: Effect::Nothing,
        close: true,
        denied: if remember { Some(id) } else { None },
    }
}

fn ended(close: bool) -> Step {
    Step { state: ConnectionState::Closed, send: None, effect: Effect::Nothing, close, denied: None }
}

fn unchanged(state: ConnectionState) -> Step {
    Step { state, send: None, effect: Effect::Nothing, close: false, denied: None }
}

fn active(strikes: u32) -> ConnectionState {
    ConnectionState::Active { id: ID, public_key: KEY, strikes }
}

fn states() -> Vec<ConnectionState> {
    vec![
        ConnectionState::Connected,
        ConnectionState::Challenged { id: ID, public_key: KEY, payload: [3; 8] },
        ConnectionState::Authenticated { id: ID, public_key: KEY },
        ConnectionState::Allowed { id: ID, public_key: KEY },
        active(0),
        ConnectionState::Closed,
    ]
}

fn push(in_order: bool, valid: bool) -> Input {
    Input::PushTransaction {
        id: TransactionId { actor: ID, index: 0 },
        body: transaction(),
        in_order,
        valid,
    }
}

#[test]
fn identify_is_answered_with_a_challenge() {
    let step = advance(
        ConnectionState::Connected,
        Input::Identify { public_key: KEY, id: ID, denied: false, challenge: [4; 8] },
        3,
    );
    assert_eq!(
        step,
        Step {
            state: ConnectionState::Challenged { id: ID, public_key: KEY, payload: [4; 8] },
            send: Some(Message::Challenge { id: ID, payload: [4; 8] }),
            effect: Effect::Nothing,
            close: false,
            denied: None,
        }
    );
}

#[test]
fn a_denied_actor_is_closed_without_a_challenge() {
    let step = advance(
        ConnectionState::Connected,
        Input::Identify { public_key: KEY, id: ID, denied: true, challenge: [4; 8] },
        3,
    );
    assert_eq!(step, denied(ID, false));
}

#[test]
fn a_valid_response_authenticates() {
    let step = advance(
        ConnectionState::Challenged { id: ID, public_key: KEY, payload: [3; 8] },
        Input::ChallengeResponse { id: ID, payload: [3; 8], valid: true },
        3,
    );
    assert_eq!(
        step,
        Step {
            state: ConnectionState::Authenticated { id: ID, public_key: KEY },
            send: None,
            effect: Effect::ConsultPolicy { id: ID, public_key: KEY },
            close: false,
            denied: None,
        }
    );
}

#[test]
fn an_invalid_response_is_denied_in_every_state() {
    for state in states() {
        let step = advance(state, Input::ChallengeResponse { id: ID, payload: [3; 8], valid: false }, 3);
        assert_eq!(step.state, ConnectionState::Closed);
        assert_eq!(step.effect, Effect::Nothing);
        assert!(!matches!(step.send, Some(Message::Allow { .. })));
    }
    let step = advance(
        ConnectionState::Challenged { id: ID, public_key: KEY, payload: [3; 8] },
        Input::ChallengeResponse { id: ID, payload: [3; 8], valid: false },
        3,
    );
    assert_eq!(step, denied(ID, false));
}

#[test]
fn a_response_for_another_challenge_or_actor_is_denied() {
    let state = ConnectionState::Challenged { id: ID, public_key: KEY, payload: [3; 8] };
    let other_payload = Input::ChallengeResponse { id: ID, payload: [4; 8], valid: true };
    assert_eq!(advance(state, other_payload, 3), denied(ID, false));
    let other_actor = Input::ChallengeResponse { id: ActorId([9; 32]), payload: [3; 8], valid: true };
    assert_eq!(advance(state, other_actor, 3), denied(ID, false));
}

#[test]
fn a_challenge_that_times_out_is_denied() {
    let state = ConnectionState::Challenged { id: ID, public_key: KEY, payload: [3; 8] };
    assert_eq!(advance(state, Input::Timeout, 3), denied(ID, false));
}

#[test]
fn the_policy_allows_and_the_record_is_stored_first() {
    let step = advance(
        ConnectionState::Authenticated { id: ID, public_key: KEY },
        Input::Decision { admission: Admission::Allow, address: PEER, now: NOW },
        3,
    );
    assert_eq!(
        step,
        Step {
            state: ConnectionState::Allowed { id: ID, public_key: KEY },
            send: None,
            effect: Effect::StoreActor {
                id: ID,
                actor: Actor::Allowed {
                    public_key: Some(KEY),
                    last_known_address: PEER,
                    last_seen: NOW,
                },
            },
            close: false,
            denied: None,
        }
    );
}

#[test]
fn a_stored_record_makes_the_peer_active() {
    let step = advance(
        ConnectionState::Allowed { id: ID, public_key: KEY },
        Input::Stored { written: true, tip: Some(4) },
        3,
    );
    assert_eq!(
        step,
        Step {
            state: active(0),
            send: Some(Message::Allow { id: ID, tip: Some(4) }),
            effect: Effect::Nothing,
            close: false,
            denied: None,
        }
    );
}

#[test]
fn a_record_that_is_not_stored_keeps_the_peer_out() {
    let step = advance(
        ConnectionState::Allowed { id: ID, public_key: KEY },
        Input::Stored { written: false, tip: Some(4) },
        3,
    );
    assert_eq!(step, denied(ID, false));
}

#[test]
fn no_peer_is_active_or_told_so_before_its_record_is_stored() {
    let inputs = [
        Input::Identify { public_key: KEY, id: ID, denied: false, challenge: [3; 8] },
        Input::ChallengeResponse { id: ID, payload: [3; 8], valid: true },
        Input::Decision { admission: Admission::Allow, address: PEER, now: NOW },
        Input::Stored { written: false, tip: None },
        push(true, true),
        Input::UpdateActorAddress { id: ID, address: PEER, now: NOW },
        Input::Unexpected,
        Input::Timeout,
        Input::TransportClosed,
    ];
    for state in states() {
        if matches!(state, ConnectionState::Active { .. }) {
            continue;
        }
        for input in inputs.iter() {
            let step = advance(state, input.clone(), 3);
            assert!(!matches!(step.state, ConnectionState::Active { .. }));
            assert!(!matches!(step.send, Some(Message::Allow { .. })));
        }
        if !matches!(state, ConnectionState::Allowed { .. }) {
            let step = advance(state, Input::Stored { written: true, tip: None }, 3);
            assert_eq!(step, unchanged(state));
        }
    }
}

#[test]
fn the_policy_denies() {
    let step = advance(
        ConnectionState::Authenticated { id: ID, public_key: KEY },
        Input::Decision { admission: Admission::Deny, address: PEER, now: NOW },
        3,
    );
    assert_eq!(step, denied(ID, true));
}

#[test]
fn a_decision_that_nobody_awaits_changes_nothing() {
    for state in states() {
        if matches!(state, ConnectionState::Authenticated { .. }) {
            continue;
        }
        let decision = Input::Decision { admission: Admission::Allow, address: PEER, now: NOW };
        assert_eq!(advance(state, decision, 3), unchanged(state));
    }
}

#[test]
fn the_end_of_a_write_that_nobody_awaits_changes_nothing() {
    assert_eq!(advance(active(2), Input::Stored { written: false, tip: None }, 3), unchanged(active(2)));
    assert_eq!(advance(active(2), Input::Stored { written: true, tip: Some(1) }, 3), unchanged(active(2)));
}

#[test]
fn a_validated_push_is_appended() {
    let step = advance(active(1), push(true, true), 3);
    assert_eq!(
        step,
        Step {
            state: active(1),
            send: None,
            effect: Effect::Append {
                id: TransactionId { actor: ID, index: 0 },
                body: transaction(),
            },
            close: false,
            denied: None,
        }
    );
}

#[test]
fn a_push_before_active_is_rejected_whatever_it_holds() {
    for state in states() {
        if matches!(state, ConnectionState::Active { .. }) {
            continue;
        }
        for (in_order, valid) in [(true, true), (true, false), (false, true), (false, false)] {
            let step = advance(state, push(in_order, valid), 3);
            assert_eq!(step.effect, Effect::Nothing);
            assert_eq!(step.state, ConnectionState::Closed);
        }
    }
    assert_eq!(advance(ConnectionState::Connected, push(true, true), 3), ended(true));
}

#[test]
fn an_invalid_push_is_refused_and_the_connection_goes_on() {
    assert_eq!(advance(active(0), push(false, true), 3), unchanged(active(1)));
    assert_eq!(advance(active(1), push(true, false), 3), unchanged(active(2)));
    let foreign = Input::PushTransaction {
        id: TransactionId { actor: ActorId([9; 32]), index: 0 },
        body: transaction(),
        in_order: true,
        valid: true,
    };
    assert_eq!(advance(active(0), foreign, 3), unchanged(active(1)));
}

#[test]
fn repeated_invalid_pushes_are_denied() {
    assert_eq!(advance(active(2), push(false, false), 3), denied(ID, true));
    assert_eq!(advance(active(0), push(false, false), 1), denied(ID, true));
    assert_eq!(advance(active(0), push(false, false), 0), denied(ID, true));
    assert_eq!(advance(active(u32::MAX), push(false, false), u32::MAX), denied(ID, true));
    assert_eq!(
        advance(active(u32::MAX - 2), push(false, false), u32::MAX),
        unchanged(active(u32::MAX - 1))
    );
}

#[test]
fn an_address_update_of_the_active_actor_is_stored() {
    let moved = SocketAddress::V6 { octets: [1; 16], port: 1 };
    let step = advance(active(0), Input::UpdateActorAddress { id: ID, address: moved, now: NOW }, 3);
    assert_eq!(
        step,
        Step {
            state: active(0),
            send: None,
            effect: Effect::StoreActor {
                id: ID,
                actor: Actor::Allowed {
                    public_key: Some(KEY),
                    last_known_address: moved,
                    last_seen: NOW,
                },
            },
            close: false,
            denied: None,
        }
    );
}

#[test]
fn an_address_update_needs_the_active_owner() {
    let other = Input::UpdateActorAddress { id: ActorId([9; 32]), address: PEER, now: NOW };
    assert_eq!(advance(active(0), other, 3), unchanged(active(0)));
    for state in states() {
        if matches!(state, ConnectionState::Active { .. }) {
            continue;
        }
        let update = Input::UpdateActorAddress { id: ID, address: PEER, now: NOW };
        assert_eq!(advance(state, update, 3).effect, Effect::Nothing);
    }
}

#[test]
fn a_message_out_of_turn_ends_the_connection() {
    let identify = Input::Identify { public_key: KEY, id: ID, denied: false, challenge: [0; 8] };
    assert_eq!(advance(active(0), identify.clone(), 3), denied(ID, false));
    assert_eq!(
        advance(ConnectionState::Authenticated { id: ID, public_key: KEY }, identify.clone(), 3),
        denied(ID, false)
    );
    assert_eq!(
        advance(
            ConnectionState::Challenged { id: ID, public_key: KEY, payload: [3; 8] },
            identify,
            3
        ),
        denied(ID, false)
    );
    assert_eq!(advance(ConnectionState::Connected, Input::Unexpected, 3), ended(true));
    assert_eq!(advance(active(0), Input::Unexpected, 3), denied(ID, false));
}

#[test]
fn a_closed_transport_closes_the_connection() {
    for state in states() {
        let step = advance(state, Input::TransportClosed, 3);
        assert_eq!(step.state, ConnectionState::Closed);
        assert_eq!(step.send, None);
        assert!(!step.close);
    }
}

#[test]
fn no_state_waits_for_ever() {
    for state in states() {
        assert_eq!(advance(state, Input::Timeout, 3).state, ConnectionState::Closed);
    }
    assert_eq!(advance(ConnectionState::Connected, Input::Timeout, 3), ended(true));
    assert_eq!(advance(active(0), Input::Timeout, 3), ended(true));
}

#[test]
fn a_closed_connection_stays_closed() {
    for input in [Input::Timeout, Input::Unexpected, Input::TransportClosed, push(true, true)] {
        assert_eq!(advance(ConnectionState::Closed, input, 3), unchanged(ConnectionState::Closed));
    }
}
