//! The overlay: the set of live connections and what happens on them.
//!
//! The overlay owns every connection from the moment it is made until it is
//! closed, and remembers the actors that were turned away. It sends and
//! stores nothing itself: each step says what is to be sent, stored or closed,
//! and the caller does it.

use crate::crypto::{ed25519_verifies, random_payload, sha3_256};
use crate::database::{continues, tip_of, Database};
use crate::model::{ActorId, Identity, SocketAddress, Timestamp};
use crate::model::lemma_actor_id_by_bytes;
use crate::protocol::{
    advance, bound, denies, lemma_transition_keeps_the_binding, sound, transition, Admission,
    ConnectionState, Effect, Input, Message, Step,
};
use vstd::prelude::*;

verus! {

/// A live connection: the handle that the overlay gave it, where the peer
/// connected from, and where the protocol stands.
#[derive(Clone, Copy, Debug, PartialEq, Eq)]
pub struct Connection {
    pub handle: u64,
    pub peer: SocketAddress,
    pub state: ConnectionState,
}

/// The overlay of one node.
#[derive(Debug)]
pub struct Overlay {
    identity: Option<Identity>,
    connections: Vec<Connection>,
    denied: Vec<ActorId>,
    strike_limit: u32,
    next_handle: u64,
}

/// The overlay as a mathematical value.
pub struct OverlayView {
    /// The node's identity, once the overlay has been started.
    pub identity: Option<Identity>,
    /// The live connections, in the order in which they were made.
    pub live: Seq<Connection>,
    /// The actors that are turned away at once.
    pub denied: Set<ActorId>,
    /// The number of refused transactions at which a peer is denied.
    pub strike_limit: u32,
    /// The handle that the next connection gets.
    pub next_handle: u64,
}

/// The handles of the connections, in order.
pub open spec fn handles(live: Seq<Connection>) -> Seq<u64> {
    Seq::new(live.len(), |i: int| live[i].handle)
}

/// Where the connection with the given handle stands in the list, if it is there.
pub open spec fn position(live: Seq<Connection>, handle: u64) -> Option<int> {
    if exists|i: int| 0 <= i < live.len() && live[i].handle == handle {
        Some(choose|i: int| 0 <= i < live.len() && live[i].handle == handle)
    } else {
        None
    }
}

impl OverlayView {
    /// No two live connections share a handle, and no handle is given twice.
    pub open spec fn wf(self) -> bool {
        &&& forall|i: int, j: int|
            0 <= i < self.live.len() && 0 <= j < self.live.len() && i != j ==> self.live[i].handle
                != self.live[j].handle
        &&& forall|i: int| 0 <= i < self.live.len() ==> self.live[i].handle < self.next_handle
    }

    /// Every live connection goes by the digest of the key that its peer named.
    pub open spec fn bound(self) -> bool {
        forall|i: int| 0 <= i < self.live.len() ==> bound(#[trigger] self.live[i].state)
    }
}

/// In a list without repeated handles a connection is found where it stands.
pub proof fn lemma_position(overlay: OverlayView, at: int)
    requires
        overlay.wf(),
        0 <= at < overlay.live.len(),
    ensures
        position(overlay.live, overlay.live[at].handle) == Some(at),
{
    let handle = overlay.live[at].handle;
    let found = choose|i: int| 0 <= i < overlay.live.len() && overlay.live[i].handle == handle;
    assert(found == at);
}

/// The overlay after a step on the connection at `at`: a closed connection
/// leaves the list, any other is left in its new state, and an actor that the
/// step denies for good is remembered.
pub open spec fn stepped(overlay: OverlayView, at: int, step: Step) -> OverlayView {
    OverlayView {
        live: if step.state is Closed {
            overlay.live.remove(at)
        } else {
            overlay.live.update(at, Connection { state: step.state, ..overlay.live[at] })
        },
        denied: match step.denied {
            Some(id) => overlay.denied.insert(id),
            None => overlay.denied,
        },
        ..overlay
    }
}

/// What `input` on the connection `handle` comes to: nothing if there is no
/// such connection, else the step of its state machine and the overlay after it.
pub open spec fn handled(overlay: OverlayView, handle: u64, input: Input) -> (
    OverlayView,
    Option<Step>,
) {
    match position(overlay.live, handle) {
        None => (overlay, None),
        Some(at) => {
            let step = transition(overlay.live[at].state, input, overlay.strike_limit);
            (stepped(overlay, at, step), Some(step))
        },
    }
}

/// Whether `input` is what `message` means on a connection in `state`.
///
/// The id of an identifying peer is the digest of its key, and the peer counts
/// as denied if that id is among `denied`; the challenge is not fixed. A
/// challenge response is valid if its signature verifies over the challenge
/// that was sent, under the key that the peer named. A transaction is in order
/// if it continues its actor's log in `tips`, and valid if its signature
/// verifies under the key of the admitted peer.
pub open spec fn reads_as(
    input: Input,
    message: Message,
    state: ConnectionState,
    denied: Set<ActorId>,
    tips: Map<ActorId, u64>,
    now: Timestamp,
) -> bool {
    match message {
        Message::Identify { public_key } => input matches Input::Identify {
            public_key: named,
            id,
            denied: known,
            ..
        } && named == public_key && id@ == sha3_256(public_key@) && known == denied.contains(id),
        Message::ChallengeResponse { id, payload, signature } => input
            == (Input::ChallengeResponse {
            id,
            payload,
            valid: state matches ConnectionState::Challenged { public_key, payload: sent, .. }
                && ed25519_verifies(public_key@, sent@, signature@),
        }),
        Message::PushTransaction { id, body } => input == (Input::PushTransaction {
            id,
            body,
            in_order: continues(tips, id),
            valid: state matches ConnectionState::Active { public_key, .. } && body@.signed_by(
                public_key@,
            ),
        }),
        Message::UpdateActorAddress { id, address } => input == (Input::UpdateActorAddress {
            id,
            address,
            now,
        }),
        _ => input == Input::Unexpected,
    }
}

/// The policy's answer as an input to the connection: with the peer's address.
pub open spec fn decision_input(connection: Connection, admission: Admission, now: Timestamp) -> Input {
    Input::Decision { admission, address: connection.peer, now }
}

/// The end of the write of an actor's record as an input to the connection:
/// with the tip of the peer's log, if the connection awaits that write.
pub open spec fn stored_input(
    connection: Connection,
    tips: Map<ActorId, u64>,
    written: bool,
) -> Input {
    Input::Stored {
        written,
        tip: match connection.state {
            ConnectionState::Allowed { id, .. } => tip_of(tips, id),
            _ => None,
        },
    }
}

/// The actors in a list, as a set.
spec fn denied_set(denied: Seq<ActorId>) -> Set<ActorId> {
    Set::new(|id: ActorId| exists|i: int| 0 <= i < denied.len() && denied[i] == id)
}

impl View for Overlay {
    type V = OverlayView;

    closed spec fn view(&self) -> OverlayView {
        OverlayView {
            identity: self.identity,
            live: self.connections@,
            denied: denied_set(self.denied@),
            strike_limit: self.strike_limit,
            next_handle: self.next_handle,
        }
    }
}

impl Overlay {
    /// The overlay's invariant: that of its view.
    pub open spec fn wf(&self) -> bool {
        self@.wf()
    }

    /// An overlay without connections that has not been started. A peer is
    /// denied at its `strike_limit`-th refused transaction.
    pub fn new(strike_limit: u32) -> (overlay: Overlay)
        ensures
            overlay.wf(),
            overlay@ == (OverlayView {
                identity: None,
                live: Seq::empty(),
                denied: Set::empty(),
                strike_limit,
                next_handle: 0,
            }),
    {
        let overlay = Overlay {
            identity: None,
            connections: Vec::new(),
            denied: Vec::new(),
            strike_limit,
            next_handle: 0,
        };
        assert(overlay@.denied =~= Set::empty());
        overlay
    }

    /// Starts the overlay under the node's identity. From now on connections
    /// are taken.
    pub fn start(&mut self, identity: Identity)
        ensures
            final(self)@ == (OverlayView { identity: Some(identity), ..old(self)@ }),
    {
        self.identity = Some(identity);
    }

    /// The identity under which the overlay runs, if it has been started.
    pub fn identity(&self) -> (identity: Option<Identity>)
        ensures
            identity == self@.identity,
    {
        self.identity
    }

    /// The number of live connections.
    pub fn peer_count(&self) -> (count: usize)
        ensures
            count == self@.live.len(),
    {
        self.connections.len()
    }

    /// Where the connection `handle` is kept, if it is live.
    fn find(&self, handle: u64) -> (at: Option<usize>)
        requires
            self.wf(),
        ensures
            match at {
                Some(at) => position(self@.live, handle) == Some(at as int) && at
                    < self@.live.len() && self@.live[at as int].handle == handle,
                None => position(self@.live, handle) is None,
            },
    {
        let mut i: usize = 0;
        while i < self.connections.len()
            invariant
                self.wf(),
                i <= self.connections@.len(),
                forall|j: int| 0 <= j < i ==> self.connections@[j].handle != handle,
            decreases self.connections@.len() - i,
        {
            if self.connections[i].handle == handle {
                proof {
                    lemma_position(self@, i as int);
                }
                return Some(i);
            }
            i += 1;
        }
        None
    }

    /// The live connection `handle`, if there is one.
    pub fn connection(&self, handle: u64) -> (connection: Option<Connection>)
        requires
            self.wf(),
        ensures
            connection == match position(self@.live, handle) {
                Some(at) => Some(self@.live[at]),
                None => None,
            },
    {
        match self.find(handle) {
            Some(at) => Some(self.connections[at]),
            None => None,
        }
    }

    /// Whether `id` is turned away at once.
    pub fn is_denied(&self, id: &ActorId) -> (denied: bool)
        ensures
            denied == self@.denied.contains(*id),
    {
        let mut i: usize = 0;
        while i < self.denied.len()
            invariant
                i <= self.denied@.len(),
                forall|j: int| 0 <= j < i ==> self.denied@[j] != *id,
            decreases self.denied@.len() - i,
        {
            if self.denied[i] == *id {
                return true;
            }
            i += 1;
        }
        false
    }

    /// Remembers `id` as an actor to turn away at once. Its live connections
    /// are left alone.
    pub fn deny(&mut self, id: ActorId)
        ensures
            final(self)@ == (OverlayView { denied: old(self)@.denied.insert(id), ..old(self)@ }),
    {
        let ghost before = self.denied@;
        self.denied.push(id);
        proof {
            let after = self.denied@;
            assert forall|other: ActorId|
                denied_set(after).contains(other) <==> #[trigger] denied_set(before).insert(
                    id,
                ).contains(other) by {
                if denied_set(after).contains(other) {
                    let i = choose|i: int| 0 <= i < after.len() && after[i] == other;
                    if i < before.len() {
                        assert(before[i] == other);
                    }
                }
                if denied_set(before).contains(other) {
                    let i = choose|i: int| 0 <= i < before.len() && before[i] == other;
                    assert(after[i] == other);
                }
                if other == id {
                    assert(after[after.len() - 1] == other);
                }
            }
            assert(denied_set(after) =~= denied_set(before).insert(id));
        }
    }

    /// Takes a new connection from `peer` into the set, in the state
    /// `Connected`, and gives it a handle. A connection is refused while the
    /// overlay is not started, and when the handles have run out.
    pub fn connect(&mut self, peer: SocketAddress) -> (handle: Option<u64>)
        requires
            old(self).wf(),
        ensures
            final(self).wf(),
            match handle {
                Some(handle) => old(self)@.identity is Some && handle == old(self)@.next_handle
                    && final(self)@ == (OverlayView {
                    live: old(self)@.live.push(
                        Connection { handle, peer, state: ConnectionState::Connected },
                    ),
                    next_handle: (handle + 1) as u64,
                    ..old(self)@
                }),
                None => (old(self)@.identity is None || old(self)@.next_handle == u64::MAX)
                    && final(self)@ == old(self)@,
            },
            old(self)@.bound() ==> final(self)@.bound(),
    {
        if self.identity.is_none() || self.next_handle == u64::MAX {
            return None;
        }
        let handle = self.next_handle;
        self.connections.push(Connection { handle, peer, state: ConnectionState::Connected });
        self.next_handle = handle + 1;
        proof {
            if old(self)@.bound() {
                assert forall|i: int| 0 <= i < self@.live.len() implies bound(
                    #[trigger] self@.live[i].state,
                ) by {
                    if i < old(self)@.live.len() {
                        assert(bound(old(self)@.live[i].state));
                    }
                }
            }
        }
        Some(handle)
    }

    /// Takes one step on the connection `handle` and says what is to be done.
    /// Without such a connection nothing happens.
    pub fn handle(&mut self, handle: u64, input: Input) -> (outcome: Option<Step>)
        requires
            old(self).wf(),
        ensures
            final(self).wf(),
            (final(self)@, outcome) == handled(old(self)@, handle, input),
            old(self)@.bound() && sound(input) ==> final(self)@.bound(),
    {
        let at = match self.find(handle) {
            Some(at) => at,
            None => {
                return None;
            },
        };
        let connection = self.connections[at];
        let step = advance(connection.state, input, self.strike_limit);
        match step.state {
            ConnectionState::Closed => {
                self.connections.remove(at);
            },
            state => {
                self.connections.set(at, Connection { state, ..connection });
            },
        }
        match step.denied {
            Some(id) => {
                self.deny(id);
            },
            None => {},
        }
        assert(self@.live =~= stepped(old(self)@, at as int, step).live);
        proof {
            if old(self)@.bound() && sound(input) {
                lemma_transition_keeps_the_binding(connection.state, input, self.strike_limit);
                assert(bound(old(self)@.live[at as int].state));
                assert forall|i: int| 0 <= i < self@.live.len() implies bound(
                    #[trigger] self@.live[i].state,
                ) by {
                    if step.state is Closed {
                        if i < at {
                            assert(bound(old(self)@.live[i].state));
                        } else {
                            assert(bound(old(self)@.live[i + 1].state));
                        }
                    } else if i != at {
                        assert(bound(old(self)@.live[i].state));
                    }
                }
            }
        }
        Some(step)
    }

    /// Takes a message that came in on the connection `handle`, works out
    /// what it means there, and takes the step. A challenge, where one is
    /// sent, is fresh randomness.
    pub fn receive(&mut self, database: &Database, handle: u64, message: Message, now: Timestamp) -> (
    outcome: Option<Step>)
        requires
            old(self).wf(),
            database.wf(),
        ensures
            final(self).wf(),
            match position(old(self)@.live, handle) {
                None => outcome is None && final(self)@ == old(self)@,
                Some(at) => exists|input: Input| #[trigger]
                    reads_as(
                        input,
                        message,
                        old(self)@.live[at].state,
                        old(self)@.denied,
                        database@.tips,
                        now,
                    ) && (final(self)@, outcome) == handled(old(self)@, handle, input),
            },
            old(self)@.bound() ==> final(self)@.bound(),
    {
        let state = match self.connection(handle) {
            Some(connection) => connection.state,
            None => {
                return None;
            },
        };
        let input = match message {
            Message::Identify { public_key } => {
                let id = ActorId::derive(&public_key);
                let denied = self.is_denied(&id);
                Input::Identify { public_key, id, denied, challenge: random_payload() }
            },
            Message::ChallengeResponse { id, payload, signature } => {
                let valid = match state {
                    ConnectionState::Challenged { public_key, payload: sent, .. } => {
                        public_key.verifies(&sent, &signature)
                    },
                    _ => false,
                };
                Input::ChallengeResponse { id, payload, valid }
            },
            Message::PushTransaction { id, body } => {
                let in_order = database.accepts(&id);
                let valid = match state {
                    ConnectionState::Active { public_key, .. } => body.verify(&public_key),
                    _ => false,
                };
                Input::PushTransaction { id, body, in_order, valid }
            },
            Message::UpdateActorAddress { id, address } => Input::UpdateActorAddress {
                id,
                address,
                now,
            },
            _ => Input::Unexpected,
        };
        assert(reads_as(input, message, state, self@.denied, database@.tips, now));
        self.handle(handle, input)
    }

    /// Takes the policy's answer on the peer of the connection `handle` and
    /// takes the step: the record of an allowed peer is to be stored.
    pub fn decide(&mut self, handle: u64, admission: Admission, now: Timestamp) -> (outcome: Option<
        Step,
    >)
        requires
            old(self).wf(),
        ensures
            final(self).wf(),
            match position(old(self)@.live, handle) {
                None => outcome is None && final(self)@ == old(self)@,
                Some(at) => (final(self)@, outcome) == handled(
                    old(self)@,
                    handle,
                    decision_input(old(self)@.live[at], admission, now),
                ),
            },
            old(self)@.bound() ==> final(self)@.bound(),
    {
        let connection = match self.connection(handle) {
            Some(connection) => connection,
            None => {
                return None;
            },
        };
        self.handle(handle, Input::Decision { admission, address: connection.peer, now })
    }

    /// Takes the end of the write of the record of the peer of the connection
    /// `handle` and takes the step: a peer whose record is stored becomes
    /// active and is told the tip of its log.
    pub fn confirm(&mut self, database: &Database, handle: u64, written: bool) -> (outcome: Option<
        Step,
    >)
        requires
            old(self).wf(),
            database.wf(),
        ensures
            final(self).wf(),
            match position(old(self)@.live, handle) {
                None => outcome is None && final(self)@ == old(self)@,
                Some(at) => (final(self)@, outcome) == handled(
                    old(self)@,
                    handle,
                    stored_input(old(self)@.live[at], database@.tips, written),
                ),
            },
            old(self)@.bound() ==> final(self)@.bound(),
    {
        let connection = match self.connection(handle) {
            Some(connection) => connection,
            None => {
                return None;
            },
        };
        let tip = match connection.state {
            ConnectionState::Allowed { id, .. } => database.tip(&id),
            _ => None,
        };
        self.handle(handle, Input::Stored { written, tip })
    }

    /// Stops the overlay: every connection leaves the set, and the overlay
    /// takes no new ones until it is started again. The handles that come
    /// back are those of the connections to close, each once; how closing
    /// them goes has no bearing on the set, which is empty.
    pub fn stop(&mut self) -> (closing: Vec<u64>)
        requires
            old(self).wf(),
        ensures
            final(self).wf(),
            closing@ == handles(old(self)@.live),
            final(self)@ == (OverlayView { identity: None, live: Seq::empty(), ..old(self)@ }),
    {
        let mut closing: Vec<u64> = Vec::new();
        let mut i: usize = 0;
        while i < self.connections.len()
            invariant
                i <= self.connections@.len(),
                closing@ == handles(self.connections@).subrange(0, i as int),
            decreases self.connections@.len() - i,
        {
            closing.push(self.connections[i].handle);
            i += 1;
            assert(closing@ =~= handles(self.connections@).subrange(0, i as int));
        }
        assert(closing@ =~= handles(self.connections@));
        self.connections.clear();
        self.identity = None;
        closing
    }
}

/// A challenge response whose signature does not verify, over the challenge
/// that was sent and under the key that the peer named, gets the peer denied:
/// it is sent `Deny`, the connection is closed, and nothing is stored.
pub proof fn lemma_unverified_response_is_denied(
    input: Input,
    id: ActorId,
    payload: [u8; 8],
    signature: crate::model::Signature,
    state: ConnectionState,
    denied: Set<ActorId>,
    tips: Map<ActorId, u64>,
    now: Timestamp,
    strike_limit: u32,
)
    requires
        state matches ConnectionState::Challenged { public_key, payload: sent, .. }
            && !ed25519_verifies(public_key@, sent@, signature@),
        reads_as(
            input,
            Message::ChallengeResponse { id, payload, signature },
            state,
            denied,
            tips,
            now,
        ),
    ensures
        state matches ConnectionState::Challenged { id: peer, .. } && transition(
            state,
            input,
            strike_limit,
        ) == denies(peer, false),
{
}

/// A transaction that arrives on a connection that is not active is refused,
/// whatever it holds: nothing is appended and the connection is closed.
pub proof fn lemma_early_push_is_rejected(
    input: Input,
    id: crate::model::TransactionId,
    body: crate::model::Transaction,
    state: ConnectionState,
    denied: Set<ActorId>,
    tips: Map<ActorId, u64>,
    now: Timestamp,
    strike_limit: u32,
)
    requires
        !(state is Active),
        reads_as(input, Message::PushTransaction { id, body }, state, denied, tips, now),
    ensures
        transition(state, input, strike_limit).effect is Nothing,
        transition(state, input, strike_limit).state is Closed,
{
}

/// A peer whose id is among the denied is sent no challenge when it
/// identifies itself: it is sent `Deny` and the connection is closed.
pub proof fn lemma_marked_actor_gets_no_challenge(
    input: Input,
    public_key: crate::model::PublicKey,
    marked: ActorId,
    denied: Set<ActorId>,
    tips: Map<ActorId, u64>,
    now: Timestamp,
    strike_limit: u32,
)
    requires
        denied.contains(marked),
        marked@ == sha3_256(public_key@),
        reads_as(
            input,
            Message::Identify { public_key },
            ConnectionState::Connected,
            denied,
            tips,
            now,
        ),
    ensures
        transition(ConnectionState::Connected, input, strike_limit) == denies(marked, false),
{
    if let Input::Identify { id, .. } = input {
        lemma_actor_id_by_bytes(id, marked);
    }
}

/// A transaction is handed on to be appended only if it continues the log of
/// the actor that pushed it and its signature verifies under a key whose
/// digest is that actor's id.
pub proof fn lemma_appended_transaction_is_signed_by_its_owner(
    input: Input,
    message: Message,
    state: ConnectionState,
    denied: Set<ActorId>,
    tips: Map<ActorId, u64>,
    now: Timestamp,
    strike_limit: u32,
)
    requires
        bound(state),
        reads_as(input, message, state, denied, tips, now),
        transition(state, input, strike_limit).effect is Append,
    ensures
        message matches Message::PushTransaction { id, body } && transition(
            state,
            input,
            strike_limit,
        ).effect == (Effect::Append { id, body }) && continues(tips, id) && (state
            matches ConnectionState::Active { id: peer, public_key, .. } && peer == id.actor
            && id.actor@ == sha3_256(public_key@) && body@.signed_by(public_key@)),
{
}

} // verus!
