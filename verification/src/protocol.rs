//! The messages of the overlay and the state machine of one connection.
//!
//! A connecting peer identifies itself with its public key, proves that it
//! holds the matching secret key by signing a random challenge, and is then
//! admitted or turned away by the node's policy. Only an admitted peer's
//! transactions and address updates are looked at.
//!
//! A connection rests in one of six states. The states `Identified` and
//! `Denied` of the protocol are passed through within a single step: an
//! identified peer is challenged or turned away at once, and a denied one is
//! closed with the `Deny` message. An allowed peer becomes active, and is
//! sent `Allow`, once its record is stored.
//!
//! The machine is a function: what a step needs from outside, a digest, a
//! random challenge, the answer of a signature check or of the policy, it
//! takes as part of its input, and so it does the outcome of a write.

use crate::crypto::sha3_256;
use crate::model::{
    bytes_equal, lemma_array_by_bytes, Actor, ActorId, PublicKey, Signature, SocketAddress,
    Timestamp, Transaction, TransactionId,
};
use vstd::prelude::*;

verus! {

/// What two nodes say to each other.
#[derive(Clone, Debug, PartialEq, Eq)]
pub enum Message {
    /// The connecting peer names its public key.
    Identify { public_key: PublicKey },
    /// The node asks the peer to sign `payload`.
    Challenge { id: ActorId, payload: [u8; 8] },
    /// The peer's signature over the challenge.
    ChallengeResponse { id: ActorId, payload: [u8; 8], signature: Signature },
    /// The node admits the peer and tells it the last index that it holds of
    /// the peer's log, if it holds any.
    Allow { id: ActorId, tip: Option<u64> },
    /// The node turns the peer away.
    Deny { id: ActorId },
    /// A transaction for the log of `id.actor`.
    PushTransaction { id: TransactionId, body: Transaction },
    /// The address at which the actor can be reached from now on.
    UpdateActorAddress { id: ActorId, address: SocketAddress },
}

/// The policy's answer on a peer that has proved its identity.
#[derive(Clone, Copy, Debug, PartialEq, Eq)]
pub enum Admission {
    Allow,
    Deny,
}

/// Where a connection stands.
#[derive(Clone, Copy, Debug, PartialEq, Eq)]
pub enum ConnectionState {
    /// Nothing has been received yet.
    Connected,
    /// The peer has named its key and has been sent `payload` to sign.
    Challenged { id: ActorId, public_key: PublicKey, payload: [u8; 8] },
    /// The peer has signed the challenge; the policy has not answered yet.
    Authenticated { id: ActorId, public_key: PublicKey },
    /// The policy has let the peer in; its record is being stored.
    Allowed { id: ActorId, public_key: PublicKey },
    /// The peer is admitted. `strikes` counts the transactions of its that
    /// were refused.
    Active { id: ActorId, public_key: PublicKey, strikes: u32 },
    /// The connection is over.
    Closed,
}

/// What happens on a connection, with everything that the step needs to know.
#[derive(Clone, Debug, PartialEq, Eq)]
pub enum Input {
    /// `Identify` was received. `id` is the digest of the key, `denied` says
    /// whether that actor was turned away before, and `challenge` is fresh
    /// randomness.
    Identify { public_key: PublicKey, id: ActorId, denied: bool, challenge: [u8; 8] },
    /// `ChallengeResponse` was received. `valid` says whether the signature
    /// verifies over the challenge that was sent, under the key that the peer
    /// named.
    ChallengeResponse { id: ActorId, payload: [u8; 8], valid: bool },
    /// The policy has answered. `address` is where the peer connected from.
    Decision { admission: Admission, address: SocketAddress, now: Timestamp },
    /// The write of an actor's record has ended. `written` says whether the
    /// record is stored, `tip` is the last index held of the peer's log.
    Stored { written: bool, tip: Option<u64> },
    /// `PushTransaction` was received. `in_order` says whether `id` continues
    /// its actor's log, `valid` whether the signature verifies under the
    /// peer's key.
    PushTransaction { id: TransactionId, body: Transaction, in_order: bool, valid: bool },
    /// `UpdateActorAddress` was received.
    UpdateActorAddress { id: ActorId, address: SocketAddress, now: Timestamp },
    /// A message was received that only a node sends to a peer: `Challenge`,
    /// `Allow` or `Deny`.
    Unexpected,
    /// The peer has let the time pass that it is given.
    Timeout,
    /// The transport has closed the connection.
    TransportClosed,
}

/// What is to be done in the store, or asked of the policy, after a step.
#[derive(Clone, Debug, PartialEq, Eq)]
pub enum Effect {
    /// Nothing.
    Nothing,
    /// Ask the policy whether to admit the actor, and hand the answer back.
    ConsultPolicy { id: ActorId, public_key: PublicKey },
    /// Store the actor's record, and hand back how the write ended.
    StoreActor { id: ActorId, actor: Actor },
    /// Append the transaction to its actor's log.
    Append { id: TransactionId, body: Transaction },
}

/// What a step comes to.
#[derive(Clone, Debug, PartialEq, Eq)]
pub struct Step {
    /// The state in which the connection is left.
    pub state: ConnectionState,
    /// The message to send to the peer, before anything else is done.
    pub send: Option<Message>,
    /// What is to be done besides.
    pub effect: Effect,
    /// Whether the transport is to be closed.
    pub close: bool,
    /// The actor to turn away at once from now on.
    pub denied: Option<ActorId>,
}

/// The connection stays as it is and nothing is done.
pub open spec fn stays(state: ConnectionState) -> Step {
    Step { state, send: None, effect: Effect::Nothing, close: false, denied: None }
}

/// The connection ends without a word. `close` says whether the transport is
/// still to be closed.
pub open spec fn ends(close: bool) -> Step {
    Step { state: ConnectionState::Closed, send: None, effect: Effect::Nothing, close, denied: None }
}

/// The peer is denied: it is sent `Deny` and the connection is closed.
/// `remember` says whether the actor is turned away at once from now on.
pub open spec fn denies(id: ActorId, remember: bool) -> Step {
    Step {
        state: ConnectionState::Closed,
        send: Some(Message::Deny { id }),
        effect: Effect::Nothing,
        close: true,
        denied: if remember {
            Some(id)
        } else {
            None
        },
    }
}

/// A refused transaction counts against the peer. At `strike_limit` refusals
/// the peer is denied and remembered as such; below it the connection goes on.
pub open spec fn strikes_out(
    id: ActorId,
    public_key: PublicKey,
    strikes: u32,
    strike_limit: u32,
) -> Step {
    let counted = if strikes < u32::MAX {
        (strikes + 1) as u32
    } else {
        strikes
    };
    if counted >= strike_limit {
        denies(id, true)
    } else {
        stays(ConnectionState::Active { id, public_key, strikes: counted })
    }
}

/// The step that `input` causes on a connection in `state`.
pub open spec fn transition(state: ConnectionState, input: Input, strike_limit: u32) -> Step {
    match state {
        ConnectionState::Closed => stays(state),
        ConnectionState::Connected => match input {
            Input::Identify { public_key, id, denied, challenge } => if denied {
                denies(id, false)
            } else {
                Step {
                    state: ConnectionState::Challenged { id, public_key, payload: challenge },
                    send: Some(Message::Challenge { id, payload: challenge }),
                    effect: Effect::Nothing,
                    close: false,
                    denied: None,
                }
            },
            Input::Decision { .. } => stays(state),
            Input::Stored { .. } => stays(state),
            Input::TransportClosed => ends(false),
            _ => ends(true),
        },
        ConnectionState::Challenged { id, public_key, payload } => match input {
            Input::ChallengeResponse { id: claimed, payload: echoed, valid } => if claimed == id
                && echoed == payload && valid {
                Step {
                    state: ConnectionState::Authenticated { id, public_key },
                    send: None,
                    effect: Effect::ConsultPolicy { id, public_key },
                    close: false,
                    denied: None,
                }
            } else {
                denies(id, false)
            },
            Input::Decision { .. } => stays(state),
            Input::Stored { .. } => stays(state),
            Input::TransportClosed => ends(false),
            _ => denies(id, false),
        },
        ConnectionState::Authenticated { id, public_key } => match input {
            Input::Decision { admission: Admission::Allow, address, now } => Step {
                state: ConnectionState::Allowed { id, public_key },
                send: None,
                effect: Effect::StoreActor {
                    id,
                    actor: Actor::Allowed {
                        public_key: Some(public_key),
                        last_known_address: address,
                        last_seen: now,
                    },
                },
                close: false,
                denied: None,
            },
            Input::Decision { admission: Admission::Deny, .. } => denies(id, true),
            Input::Stored { .. } => stays(state),
            Input::TransportClosed => ends(false),
            _ => denies(id, false),
        },
        ConnectionState::Allowed { id, public_key } => match input {
            Input::Stored { written: true, tip } => Step {
                state: ConnectionState::Active { id, public_key, strikes: 0 },
                send: Some(Message::Allow { id, tip }),
                effect: Effect::Nothing,
                close: false,
                denied: None,
            },
            Input::Stored { written: false, .. } => denies(id, false),
            Input::Decision { .. } => stays(state),
            Input::TransportClosed => ends(false),
            _ => denies(id, false),
        },
        ConnectionState::Active { id, public_key, strikes } => match input {
            Input::PushTransaction { id: position, body, in_order, valid } => if position.actor
                == id && in_order && valid {
                Step {
                    state,
                    send: None,
                    effect: Effect::Append { id: position, body },
                    close: false,
                    denied: None,
                }
            } else {
                strikes_out(id, public_key, strikes, strike_limit)
            },
            Input::UpdateActorAddress { id: claimed, address, now } => if claimed == id {
                Step {
                    state,
                    send: None,
                    effect: Effect::StoreActor {
                        id,
                        actor: Actor::Allowed {
                            public_key: Some(public_key),
                            last_known_address: address,
                            last_seen: now,
                        },
                    },
                    close: false,
                    denied: None,
                }
            } else {
                stays(state)
            },
            Input::Decision { .. } => stays(state),
            Input::Stored { .. } => stays(state),
            Input::TransportClosed => ends(false),
            Input::Timeout => ends(true),
            _ => denies(id, false),
        },
    }
}

fn stay(state: ConnectionState) -> (step: Step)
    ensures
        step == stays(state),
{
    Step { state, send: None, effect: Effect::Nothing, close: false, denied: None }
}

fn end(close: bool) -> (step: Step)
    ensures
        step == ends(close),
{
    Step { state: ConnectionState::Closed, send: None, effect: Effect::Nothing, close, denied: None }
}

fn deny(id: ActorId, remember: bool) -> (step: Step)
    ensures
        step == denies(id, remember),
{
    Step {
        state: ConnectionState::Closed,
        send: Some(Message::Deny { id }),
        effect: Effect::Nothing,
        close: true,
        denied: if remember {
            Some(id)
        } else {
            None
        },
    }
}

fn strike_out(id: ActorId, public_key: PublicKey, strikes: u32, strike_limit: u32) -> (step: Step)
    ensures
        step == strikes_out(id, public_key, strikes, strike_limit),
{
    let counted: u32 = if strikes < u32::MAX {
        strikes + 1
    } else {
        strikes
    };
    if counted >= strike_limit {
        deny(id, true)
    } else {
        stay(ConnectionState::Active { id, public_key, strikes: counted })
    }
}

/// Takes one step on a connection.
pub fn advance(state: ConnectionState, input: Input, strike_limit: u32) -> (step: Step)
    ensures
        step == transition(state, input, strike_limit),
{
    match state {
        ConnectionState::Closed => stay(state),
        ConnectionState::Connected => match input {
            Input::Identify { public_key, id, denied, challenge } => if denied {
                deny(id, false)
            } else {
                Step {
                    state: ConnectionState::Challenged { id, public_key, payload: challenge },
                    send: Some(Message::Challenge { id, payload: challenge }),
                    effect: Effect::Nothing,
                    close: false,
                    denied: None,
                }
            },
            Input::Decision { .. } => stay(state),
            Input::Stored { .. } => stay(state),
            Input::TransportClosed => end(false),
            _ => end(true),
        },
        ConnectionState::Challenged { id, public_key, payload } => match input {
            Input::ChallengeResponse { id: claimed, payload: echoed, valid } => {
                proof {
                    lemma_array_by_bytes(echoed, payload);
                }
                if claimed == id && bytes_equal(&echoed, &payload) && valid {
                    Step {
                        state: ConnectionState::Authenticated { id, public_key },
                        send: None,
                        effect: Effect::ConsultPolicy { id, public_key },
                        close: false,
                        denied: None,
                    }
                } else {
                    deny(id, false)
                }
            },
            Input::Decision { .. } => stay(state),
            Input::Stored { .. } => stay(state),
            Input::TransportClosed => end(false),
            _ => deny(id, false),
        },
        ConnectionState::Authenticated { id, public_key } => match input {
            Input::Decision { admission: Admission::Allow, address, now } => Step {
                state: ConnectionState::Allowed { id, public_key },
                send: None,
                effect: Effect::StoreActor {
                    id,
                    actor: Actor::Allowed {
                        public_key: Some(public_key),
                        last_known_address: address,
                        last_seen: now,
                    },
                },
                close: false,
                denied: None,
            },
            Input::Decision { admission: Admission::Deny, .. } => deny(id, true),
            Input::Stored { .. } => stay(state),
            Input::TransportClosed => end(false),
            _ => deny(id, false),
        },
        ConnectionState::Allowed { id, public_key } => match input {
            Input::Stored { written: true, tip } => Step {
                state: ConnectionState::Active { id, public_key, strikes: 0 },
                send: Some(Message::Allow { id, tip }),
                effect: Effect::Nothing,
                close: false,
                denied: None,
            },
            Input::Stored { written: false, .. } => deny(id, false),
            Input::Decision { .. } => stay(state),
            Input::TransportClosed => end(false),
            _ => deny(id, false),
        },
        ConnectionState::Active { id, public_key, strikes } => match input {
            Input::PushTransaction { id: position, body, in_order, valid } => if position.actor
                == id && in_order && valid {
                Step {
                    state,
                    send: None,
                    effect: Effect::Append { id: position, body },
                    close: false,
                    denied: None,
                }
            } else {
                strike_out(id, public_key, strikes, strike_limit)
            },
            Input::UpdateActorAddress { id: claimed, address, now } => if claimed == id {
                Step {
                    state,
                    send: None,
                    effect: Effect::StoreActor {
                        id,
                        actor: Actor::Allowed {
                            public_key: Some(public_key),
                            last_known_address: address,
                            last_seen: now,
                        },
                    },
                    close: false,
                    denied: None,
                }
            } else {
                stay(state)
            },
            Input::Decision { .. } => stay(state),
            Input::Stored { .. } => stay(state),
            Input::TransportClosed => end(false),
            Input::Timeout => end(true),
            _ => deny(id, false),
        },
    }
}

/// A challenge response whose signature does not verify never admits the
/// peer: the connection is not left authenticated or active, no `Allow` is
/// sent and nothing is stored. On a challenged connection the peer is sent
/// `Deny` and the connection is closed.
pub proof fn lemma_invalid_response_is_denied(
    state: ConnectionState,
    id: ActorId,
    payload: [u8; 8],
    strike_limit: u32,
)
    ensures
        ({
            let step = transition(
                state,
                Input::ChallengeResponse { id, payload, valid: false },
                strike_limit,
            );
            &&& step.state is Closed
            &&& !(step.send is Some && step.send.unwrap() is Allow)
            &&& step.effect is Nothing
            &&& state matches ConnectionState::Challenged { id: challenged, .. } ==> step
                == denies(challenged, false)
        }),
{
}

/// A transaction pushed on a connection that is not active is refused,
/// whether or not it is in order and well signed: nothing is appended and the
/// connection is closed.
pub proof fn lemma_push_before_active_is_rejected(
    state: ConnectionState,
    id: TransactionId,
    body: Transaction,
    in_order: bool,
    valid: bool,
    strike_limit: u32,
)
    requires
        !(state is Active),
    ensures
        ({
            let step = transition(
                state,
                Input::PushTransaction { id, body, in_order, valid },
                strike_limit,
            );
            &&& step.effect is Nothing
            &&& step.state is Closed
        }),
{
}

/// A transaction is appended only for the admitted peer that owns the log,
/// at the index that continues it, and with a signature that verifies under
/// the peer's key.
pub proof fn lemma_append_only_when_validated(
    state: ConnectionState,
    input: Input,
    strike_limit: u32,
)
    requires
        transition(state, input, strike_limit).effect is Append,
    ensures
        state matches ConnectionState::Active { id: peer, .. } && input
            matches Input::PushTransaction { id, body, in_order, valid } && id.actor == peer
            && in_order && valid && transition(state, input, strike_limit).effect == (
        Effect::Append { id, body }),
{
}

/// An actor that was turned away before is sent no challenge when it
/// identifies itself again: it is sent `Deny` and the connection is closed.
pub proof fn lemma_denied_actor_gets_no_challenge(
    public_key: PublicKey,
    id: ActorId,
    challenge: [u8; 8],
    strike_limit: u32,
)
    ensures
        transition(
            ConnectionState::Connected,
            Input::Identify { public_key, id, denied: true, challenge },
            strike_limit,
        ) == denies(id, false),
{
}

/// An address update changes the actor's record only on the active
/// connection of that very actor.
pub proof fn lemma_address_update_needs_active_owner(
    state: ConnectionState,
    id: ActorId,
    address: SocketAddress,
    now: Timestamp,
    strike_limit: u32,
)
    requires
        !(state matches ConnectionState::Active { id: peer, .. } && peer == id),
    ensures
        transition(state, Input::UpdateActorAddress { id, address, now }, strike_limit).effect is Nothing,
{
}

/// The policy's consent does not make a peer active: it leaves the
/// connection in `Allowed`, with the order to store the actor's record.
pub proof fn lemma_allowed_peer_is_stored_first(
    state: ConnectionState,
    input: Input,
    strike_limit: u32,
)
    requires
        !(state is Allowed),
        transition(state, input, strike_limit).state is Allowed,
    ensures
        ({
            let step = transition(state, input, strike_limit);
            &&& state matches ConnectionState::Authenticated { id, public_key }
            &&& input matches Input::Decision { admission: Admission::Allow, address, now }
            &&& step.state == (ConnectionState::Allowed { id, public_key })
            &&& step.send is None
            &&& step.effect == (Effect::StoreActor {
                id,
                actor: Actor::Allowed {
                    public_key: Some(public_key),
                    last_known_address: address,
                    last_seen: now,
                },
            })
        }),
{
}

/// A peer becomes active, and is sent `Allow`, only when its record has been
/// written: no actor has an active connection, and so no transaction
/// appended, before a record of it is stored.
pub proof fn lemma_active_peer_has_a_record(
    state: ConnectionState,
    input: Input,
    strike_limit: u32,
)
    requires
        !(state is Active),
        transition(state, input, strike_limit).state is Active || (transition(
            state,
            input,
            strike_limit,
        ).send matches Some(Message::Allow { .. })),
    ensures
        ({
            let step = transition(state, input, strike_limit);
            &&& state matches ConnectionState::Allowed { id, public_key }
            &&& input matches Input::Stored { written: true, tip }
            &&& step.state == (ConnectionState::Active { id, public_key, strikes: 0 })
            &&& step.send == Some(Message::Allow { id, tip })
        }),
{
}

/// Whether the id that a connection goes by is the digest of the key that
/// the peer named.
pub open spec fn bound(state: ConnectionState) -> bool {
    match state {
        ConnectionState::Challenged { id, public_key, .. } => id@ == sha3_256(public_key@),
        ConnectionState::Authenticated { id, public_key } => id@ == sha3_256(public_key@),
        ConnectionState::Allowed { id, public_key } => id@ == sha3_256(public_key@),
        ConnectionState::Active { id, public_key, .. } => id@ == sha3_256(public_key@),
        _ => true,
    }
}

/// Whether the id that comes with an identifying peer's key is its digest.
pub open spec fn sound(input: Input) -> bool {
    input matches Input::Identify { public_key, id, .. } ==> id@ == sha3_256(public_key@)
}

/// A connection that goes by the digest of its peer's key keeps doing so.
pub proof fn lemma_transition_keeps_the_binding(
    state: ConnectionState,
    input: Input,
    strike_limit: u32,
)
    requires
        bound(state),
        sound(input),
    ensures
        bound(transition(state, input, strike_limit).state),
{
}

} // verus!
