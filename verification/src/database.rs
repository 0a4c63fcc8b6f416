//! The rules of the storage engine.
//!
//! The store keeps three namespaces, independent of each other: identities and
//! actors, keyed by actor id, and transactions, keyed by actor id and index.
//! This module decides what is written and what a read means; the reads and
//! writes themselves are made by the caller, who hands the outcome of each back
//! to the function that goes on from it. What the engine has to remember
//! between calls, the last index of each actor's log, it keeps here.

use crate::codec::{
    actor_bytes, actor_of, decode_actor, decode_identity, decode_transaction, encode_actor,
    encode_identity, encode_transaction, hex_encode, hex_lower, identity_bytes, identity_of,
    transaction_bytes, transaction_id_of, transaction_key, transaction_of,
};
use crate::model::{Actor, ActorId, Identity, Transaction, TransactionId, TransactionView};
use vstd::prelude::*;

verus! {

/// Why the engine underneath refused an operation.
#[derive(Clone, Copy, Debug, PartialEq, Eq)]
pub enum StoreFault {
    NotFound,
    KeyExists,
    TxnFull,
    CursorFull,
    PageFull,
    Corrupted,
    Panic,
    InvalidPath,
    StateError,
    CacheError,
    /// Any other failure, with the engine's own code for it.
    Other(i32),
}

/// One of the store's three sets of records.
#[derive(Clone, Copy, Debug, PartialEq, Eq)]
pub enum Namespace {
    Identities,
    Actors,
    Transactions,
}

impl Namespace {
    /// The name under which the namespace is kept in the store.
    pub open spec fn spec_name(self) -> Seq<char> {
        match self {
            Namespace::Identities => "identities"@,
            Namespace::Actors => "actors"@,
            Namespace::Transactions => "transactions"@,
        }
    }

    /// The name under which the namespace is kept in the store.
    pub fn name(&self) -> (name: &'static str)
        ensures
            name@ == self.spec_name(),
    {
        match self {
            Namespace::Identities => "identities",
            Namespace::Actors => "actors",
            Namespace::Transactions => "transactions",
        }
    }
}

/// What went wrong in the storage engine.
#[derive(Clone, Debug, PartialEq, Eq)]
pub enum Error {
    /// The store, or the named part of it, could not be opened or created.
    DatabaseInitializationError(&'static str, StoreFault),
    /// The statistics of the named namespace could not be read.
    StatusFetchFailed(&'static str, StoreFault),
    /// Writing an identity failed.
    IdentityInsertionError(StoreFault),
    /// Writing an actor record failed.
    ActorInsertionError(StoreFault),
    /// Writing a transaction failed.
    TransactionInsertionError(StoreFault),
    /// A transaction does not continue its actor's log: its index is not the
    /// one after `tip`.
    TransactionOutOfOrder { tip: Option<u64>, index: u64 },
    /// Reading the named kind of record under the given key failed.
    FetchError(&'static str, String, StoreFault),
    /// The bytes stored for the named kind of record under the given key are
    /// not a record of that kind.
    DeserializationError(&'static str, String),
}

/// An error as a mathematical value: texts are sequences of characters.
pub enum ErrorView {
    DatabaseInitializationError(Seq<char>, StoreFault),
    StatusFetchFailed(Seq<char>, StoreFault),
    IdentityInsertionError(StoreFault),
    ActorInsertionError(StoreFault),
    TransactionInsertionError(StoreFault),
    TransactionOutOfOrder { tip: Option<u64>, index: u64 },
    FetchError(Seq<char>, Seq<char>, StoreFault),
    DeserializationError(Seq<char>, Seq<char>),
}

impl View for Error {
    type V = ErrorView;

    open spec fn view(&self) -> ErrorView {
        match *self {
            Error::DatabaseInitializationError(what, fault) => {
                ErrorView::DatabaseInitializationError(what@, fault)
            },
            Error::StatusFetchFailed(what, fault) => ErrorView::StatusFetchFailed(what@, fault),
            Error::IdentityInsertionError(fault) => ErrorView::IdentityInsertionError(fault),
            Error::ActorInsertionError(fault) => ErrorView::ActorInsertionError(fault),
            Error::TransactionInsertionError(fault) => ErrorView::TransactionInsertionError(fault),
            Error::TransactionOutOfOrder { tip, index } => ErrorView::TransactionOutOfOrder {
                tip,
                index,
            },
            Error::FetchError(what, key, fault) => ErrorView::FetchError(what@, key@, fault),
            Error::DeserializationError(what, key) => ErrorView::DeserializationError(what@, key@),
        }
    }
}

/// What a read came back with: the bytes stored under the key, or the fault.
/// A key that is not there comes back as the fault `NotFound`.
pub open spec fn fetched_view(fetched: Result<Vec<u8>, StoreFault>) -> Result<Seq<u8>, StoreFault> {
    match fetched {
        Ok(bytes) => Ok(bytes@),
        Err(fault) => Err(fault),
    }
}

/// Turns the fault `NotFound` into an absent value and leaves every other
/// outcome as it is.
pub fn optionalize_lmdb_get<T>(res: Result<T, StoreFault>) -> (found: Result<Option<T>, StoreFault>)
    ensures
        found == match res {
            Ok(value) => Ok::<Option<T>, StoreFault>(Some(value)),
            Err(StoreFault::NotFound) => Ok(None),
            Err(fault) => Err(fault),
        },
{
    match res {
        Ok(value) => Ok(Some(value)),
        Err(StoreFault::NotFound) => Ok(None),
        Err(fault) => Err(fault),
    }
}

/// A result with its error as a mathematical value.
pub open spec fn result_view<T>(result: Result<T, Error>) -> Result<T, ErrorView> {
    match result {
        Ok(value) => Ok(value),
        Err(error) => Err(error@),
    }
}

/// What reading an identity means: nothing under the key is no identity, a
/// failed read is a fetch error, and bytes that are no identity are a
/// deserialization error.
pub open spec fn identity_read(id: ActorId, fetched: Result<Seq<u8>, StoreFault>) -> Result<
    Option<Identity>,
    ErrorView,
> {
    match fetched {
        Err(StoreFault::NotFound) => Ok(None),
        Err(fault) => Err(ErrorView::FetchError("identity"@, hex_lower(id@), fault)),
        Ok(bytes) => match identity_of(bytes) {
            Some(identity) => Ok(Some(identity)),
            None => Err(ErrorView::DeserializationError("identity"@, hex_lower(id@))),
        },
    }
}

/// What reading an actor record means, in the same way.
pub open spec fn actor_read(id: ActorId, fetched: Result<Seq<u8>, StoreFault>) -> Result<
    Option<Actor>,
    ErrorView,
> {
    match fetched {
        Err(StoreFault::NotFound) => Ok(None),
        Err(fault) => Err(ErrorView::FetchError("actor"@, hex_lower(id@), fault)),
        Ok(bytes) => match actor_of(bytes) {
            Some(actor) => Ok(Some(actor)),
            None => Err(ErrorView::DeserializationError("actor"@, hex_lower(id@))),
        },
    }
}

/// What reading a transaction means, in the same way. The key in an error is
/// the record's whole key, actor and index.
pub open spec fn transaction_read(
    id: TransactionId,
    fetched: Result<Seq<u8>, StoreFault>,
) -> Result<Option<TransactionView>, ErrorView> {
    match fetched {
        Err(StoreFault::NotFound) => Ok(None),
        Err(fault) => Err(
            ErrorView::FetchError("transaction"@, hex_lower(transaction_key(id)), fault),
        ),
        Ok(bytes) => match transaction_of(bytes) {
            Some(transaction) => Ok(Some(transaction)),
            None => Err(
                ErrorView::DeserializationError("transaction"@, hex_lower(transaction_key(id))),
            ),
        },
    }
}

/// What a write puts into the store.
#[derive(Clone, Copy, Debug, PartialEq, Eq)]
pub enum Record {
    Identity(ActorId),
    Actor(ActorId),
    Transaction(TransactionId),
}

impl Record {
    /// The namespace that the record belongs to.
    pub open spec fn spec_namespace(self) -> Namespace {
        match self {
            Record::Identity(_) => Namespace::Identities,
            Record::Actor(_) => Namespace::Actors,
            Record::Transaction(_) => Namespace::Transactions,
        }
    }

    /// The namespace that the record belongs to.
    pub fn namespace(&self) -> (namespace: Namespace)
        ensures
            namespace == self.spec_namespace(),
    {
        match self {
            Record::Identity(_) => Namespace::Identities,
            Record::Actor(_) => Namespace::Actors,
            Record::Transaction(_) => Namespace::Transactions,
        }
    }

    /// Whether a write of the record may take the place of what is stored
    /// under its key. An actor's record changes with every contact. An
    /// identity is kept as it was made, and a stored transaction never
    /// changes: a write of either fails where the key is taken.
    pub fn replaces(&self) -> (replaces: bool)
        ensures
            replaces == (self is Actor),
    {
        match self {
            Record::Actor(_) => true,
            _ => false,
        }
    }
}

/// One read: what is stored under `key` in the namespace of `record`.
#[derive(Clone, Debug, PartialEq, Eq)]
pub struct ReadOp {
    pub record: Record,
    pub key: Vec<u8>,
}

/// A read as a mathematical value.
pub struct ReadOpView {
    pub record: Record,
    pub key: Seq<u8>,
}

impl View for ReadOp {
    type V = ReadOpView;

    open spec fn view(&self) -> ReadOpView {
        ReadOpView { record: self.record, key: self.key@ }
    }
}

/// One write, to be made in a single atomic transaction of the store: put
/// `value` under `key` in the namespace of `record`. Whether it may take the
/// place of a record that is stored there is for `Record::replaces` to say.
#[derive(Clone, Debug, PartialEq, Eq)]
pub struct WriteOp {
    pub record: Record,
    pub key: Vec<u8>,
    pub value: Vec<u8>,
}

/// A write as a mathematical value.
pub struct WriteOpView {
    pub record: Record,
    pub key: Seq<u8>,
    pub value: Seq<u8>,
}

impl View for WriteOp {
    type V = WriteOpView;

    open spec fn view(&self) -> WriteOpView {
        WriteOpView { record: self.record, key: self.key@, value: self.value@ }
    }
}

/// The index that continues an actor's log: 0 for an empty log, else the one
/// after its tip.
pub open spec fn next_index(tips: Map<ActorId, u64>, actor: ActorId) -> int {
    if tips.contains_key(actor) {
        tips[actor] + 1
    } else {
        0
    }
}

/// The last index of an actor's log, if the log holds anything.
pub open spec fn tip_of(tips: Map<ActorId, u64>, actor: ActorId) -> Option<u64> {
    if tips.contains_key(actor) {
        Some(tips[actor])
    } else {
        None
    }
}

/// Whether a transaction at `id` continues its actor's log.
pub open spec fn continues(tips: Map<ActorId, u64>, id: TransactionId) -> bool {
    id.index == next_index(tips, id.actor)
}

/// The tips after an attempt to append at `id`: moved on by one for the actor
/// if the position continues its log, and unchanged if not.
pub open spec fn appended(tips: Map<ActorId, u64>, id: TransactionId) -> Map<ActorId, u64> {
    if continues(tips, id) {
        tips.insert(id.actor, id.index)
    } else {
        tips
    }
}

/// The indices at which appends for `actor` are accepted, in order, when the
/// positions `ids` are tried one after the other on logs with the given tips.
pub open spec fn accepted_indices(
    tips: Map<ActorId, u64>,
    ids: Seq<TransactionId>,
    actor: ActorId,
) -> Seq<u64>
    decreases ids.len(),
{
    if ids.len() == 0 {
        Seq::empty()
    } else {
        let rest = accepted_indices(appended(tips, ids[0]), ids.skip(1), actor);
        if ids[0].actor == actor && continues(tips, ids[0]) {
            seq![ids[0].index] + rest
        } else {
            rest
        }
    }
}

/// Whatever positions are tried, in whatever order, the indices accepted for
/// an actor continue its log without a gap: the first is the one after the
/// tip, or 0 on an empty log, and each next one is one more.
pub proof fn lemma_accepted_indices_gapless(
    tips: Map<ActorId, u64>,
    ids: Seq<TransactionId>,
    actor: ActorId,
)
    ensures
        forall|k: int|
            0 <= k < accepted_indices(tips, ids, actor).len() ==> #[trigger] accepted_indices(
                tips,
                ids,
                actor,
            )[k] == next_index(tips, actor) + k,
    decreases ids.len(),
{
    if ids.len() > 0 {
        let first = ids[0];
        let all = accepted_indices(tips, ids, actor);
        let rest = accepted_indices(appended(tips, first), ids.skip(1), actor);
        lemma_accepted_indices_gapless(appended(tips, first), ids.skip(1), actor);
        assert forall|k: int| 0 <= k < all.len() implies #[trigger] all[k] == next_index(
            tips,
            actor,
        ) + k by {
            if first.actor == actor && continues(tips, first) {
                if k > 0 {
                    assert(all[k] == rest[k - 1]);
                }
            } else {
                assert(all[k] == rest[k]);
            }
        }
    }
}

/// On a store without transactions the indices accepted for an actor are
/// 0, 1, 2 and so on.
pub proof fn lemma_accepted_indices_start_at_zero(ids: Seq<TransactionId>, actor: ActorId)
    ensures
        forall|k: int|
            0 <= k < accepted_indices(Map::empty(), ids, actor).len() ==> #[trigger] accepted_indices(
                Map::empty(),
                ids,
                actor,
            )[k] == k,
{
    lemma_accepted_indices_gapless(Map::empty(), ids, actor);
}

/// An attempt that does not continue the log leaves every log as it was.
pub proof fn lemma_rejected_append_changes_nothing(tips: Map<ActorId, u64>, id: TransactionId)
    requires
        id.index != next_index(tips, id.actor),
    ensures
        appended(tips, id) == tips,
{
}

/// The head of one actor's log.
#[derive(Clone, Copy, Debug)]
struct LogHead {
    actor: ActorId,
    tip: u64,
}

/// The tips that a list of heads stands for.
spec fn heads_map(heads: Seq<LogHead>) -> Map<ActorId, u64> {
    Map::new(
        |actor: ActorId| exists|i: int| 0 <= i < heads.len() && heads[i].actor == actor,
        |actor: ActorId|
            heads[choose|i: int| 0 <= i < heads.len() && heads[i].actor == actor].tip,
    )
}

/// No actor has two heads.
spec fn heads_distinct(heads: Seq<LogHead>) -> bool {
    forall|i: int, j: int|
        0 <= i < heads.len() && 0 <= j < heads.len() && i != j ==> heads[i].actor != heads[j].actor
}

proof fn lemma_head_at(heads: Seq<LogHead>, i: int)
    requires
        heads_distinct(heads),
        0 <= i < heads.len(),
    ensures
        heads_map(heads).contains_key(heads[i].actor),
        heads_map(heads)[heads[i].actor] == heads[i].tip,
{
    let actor = heads[i].actor;
    let j = choose|j: int| 0 <= j < heads.len() && heads[j].actor == actor;
    assert(j == i);
}

/// Putting a head in the place of the one that its actor had, or behind the
/// last one if the actor had none, moves that actor's tip and no other.
proof fn lemma_head_put(before: Seq<LogHead>, after: Seq<LogHead>, at: int, head: LogHead)
    requires
        heads_distinct(before),
        0 <= at < after.len(),
        after[at] == head,
        at < before.len() ==> before[at].actor == head.actor && after.len() == before.len(),
        forall|i: int|
            0 <= i < after.len() && i != at ==> i < before.len() && after[i] == before[i],
        forall|i: int|
            0 <= i < before.len() && i != at ==> i < after.len() && before[i].actor != head.actor,
    ensures
        heads_distinct(after),
        heads_map(after) == heads_map(before).insert(head.actor, head.tip),
{
    assert forall|actor: ActorId|
        heads_map(after).contains_key(actor) <==> #[trigger] heads_map(before).insert(
            head.actor,
            head.tip,
        ).contains_key(actor) by {
        if heads_map(after).contains_key(actor) {
            let i = choose|i: int| 0 <= i < after.len() && after[i].actor == actor;
            if i != at {
                assert(before[i].actor == actor);
            }
        }
        if heads_map(before).contains_key(actor) {
            let i = choose|i: int| 0 <= i < before.len() && before[i].actor == actor;
            if i != at {
                assert(after[i].actor == actor);
            }
        }
        if actor == head.actor {
            assert(after[at].actor == actor);
        }
    }
    assert forall|actor: ActorId| #[trigger]
        heads_map(after).contains_key(actor) implies heads_map(after)[actor] == heads_map(
        before,
    ).insert(head.actor, head.tip)[actor] by {
        let i = choose|i: int| 0 <= i < after.len() && after[i].actor == actor;
        lemma_head_at(after, i);
        if i != at {
            lemma_head_at(before, i);
        }
    }
    assert(heads_map(after) =~= heads_map(before).insert(head.actor, head.tip));
}

/// The storage engine's own state: where the store lies, how many records
/// each namespace held when it was opened, and the tip of every actor's log.
#[derive(Debug)]
pub struct Database {
    path: String,
    identities: u64,
    actors: u64,
    transactions: u64,
    heads: Vec<LogHead>,
}

/// The engine's state as a mathematical value.
pub struct DatabaseView {
    pub path: Seq<char>,
    /// The number of identities found when the store was opened.
    pub identities: u64,
    /// The number of actor records found when the store was opened.
    pub actors: u64,
    /// The number of transactions found when the store was opened.
    pub transactions: u64,
    /// The last index of each actor's log; an actor without transactions has none.
    pub tips: Map<ActorId, u64>,
}

impl View for Database {
    type V = DatabaseView;

    closed spec fn view(&self) -> DatabaseView {
        DatabaseView {
            path: self.path@,
            identities: self.identities,
            actors: self.actors,
            transactions: self.transactions,
            tips: heads_map(self.heads@),
        }
    }
}

impl Database {
    /// The engine's invariant: it knows one tip per actor.
    pub closed spec fn wf(&self) -> bool {
        heads_distinct(self.heads@)
    }

    /// Where the head of `actor` is kept, if the actor has one.
    fn find_head(&self, actor: &ActorId) -> (at: Option<usize>)
        requires
            self.wf(),
        ensures
            match at {
                Some(at) => at < self.heads@.len() && self.heads@[at as int].actor == *actor
                    && self@.tips.contains_key(*actor) && self@.tips[*actor]
                    == self.heads@[at as int].tip,
                None => !self@.tips.contains_key(*actor),
            },
    {
        let mut i: usize = 0;
        while i < self.heads.len()
            invariant
                self.wf(),
                i <= self.heads@.len(),
                forall|j: int| 0 <= j < i ==> self.heads@[j].actor != *actor,
            decreases self.heads@.len() - i,
        {
            if self.heads[i].actor == *actor {
                proof {
                    lemma_head_at(self.heads@, i as int);
                }
                return Some(i);
            }
            i += 1;
        }
        None
    }

    /// Where the store lies.
    pub fn path(&self) -> (path: &String)
        ensures
            path@ == self@.path,
    {
        &self.path
    }

    /// The numbers of identities, actor records and transactions that the
    /// store held when it was opened.
    pub fn record_counts(&self) -> (counts: (u64, u64, u64))
        ensures
            counts == (self@.identities, self@.actors, self@.transactions),
    {
        (self.identities, self.actors, self.transactions)
    }

    /// The last index of the log of `actor`, if the log holds anything.
    pub fn tip(&self, actor: &ActorId) -> (tip: Option<u64>)
        requires
            self.wf(),
        ensures
            tip == tip_of(self@.tips, *actor),
    {
        match self.find_head(actor) {
            Some(at) => Some(self.heads[at].tip),
            None => None,
        }
    }

    /// Whether a transaction at `id` would continue its actor's log.
    pub fn accepts(&self, id: &TransactionId) -> (accepted: bool)
        requires
            self.wf(),
        ensures
            accepted == continues(self@.tips, *id),
    {
        match self.tip(&id.actor) {
            None => id.index == 0,
            Some(tip) => tip < u64::MAX && id.index == tip + 1,
        }
    }

    /// The write that stores `identity` under `id`: one record in the
    /// namespace of identities.
    pub fn insert_identity(&self, id: &ActorId, identity: &Identity) -> (write: WriteOp)
        ensures
            write@ == (WriteOpView {
                record: Record::Identity(*id),
                key: id@,
                value: identity_bytes(*identity),
            }),
    {
        let mut key: Vec<u8> = Vec::new();
        crate::codec::append(&mut key, &id.0);
        WriteOp { record: Record::Identity(*id), key, value: encode_identity(identity) }
    }

    /// The write that stores `actor` under `id`: one record in the namespace
    /// of actors.
    pub fn insert_actor(&self, id: &ActorId, actor: &Actor) -> (write: WriteOp)
        ensures
            write@ == (WriteOpView {
                record: Record::Actor(*id),
                key: id@,
                value: actor_bytes(*actor),
            }),
    {
        let mut key: Vec<u8> = Vec::new();
        crate::codec::append(&mut key, &id.0);
        WriteOp { record: Record::Actor(*id), key, value: encode_actor(actor) }
    }

    /// The write that appends `transaction` at `id`, or the refusal if `id`
    /// does not continue its actor's log. Signatures are not looked at here.
    pub fn insert_transaction(&self, id: &TransactionId, transaction: &Transaction) -> (write:
        Result<WriteOp, Error>)
        requires
            self.wf(),
        ensures
            match write {
                Ok(write) => continues(self@.tips, *id) && write@ == (WriteOpView {
                    record: Record::Transaction(*id),
                    key: transaction_key(*id),
                    value: transaction_bytes(transaction@),
                }),
                Err(error) => !continues(self@.tips, *id) && error
                    == (Error::TransactionOutOfOrder {
                    tip: tip_of(self@.tips, id.actor),
                    index: id.index,
                }),
            },
    {
        if !self.accepts(id) {
            return Err(Error::TransactionOutOfOrder { tip: self.tip(&id.actor), index: id.index });
        }
        Ok(
            WriteOp {
                record: Record::Transaction(*id),
                key: id.to_key(),
                value: encode_transaction(transaction),
            },
        )
    }

    /// Takes note of how a write ended.
    ///
    /// A failed write leaves the engine as it was and comes back as the
    /// insertion error of its namespace. A transaction that was written moves
    /// its actor's tip on by one. A transaction that does not continue its
    /// actor's log is refused whatever the outcome was, and nothing changes.
    pub fn commit(&mut self, record: Record, outcome: Result<(), StoreFault>) -> (done: Result<
        (),
        Error,
    >)
        requires
            old(self).wf(),
        ensures
            final(self).wf(),
            done == committed(old(self)@.tips, record, outcome),
            final(self)@ == (DatabaseView {
                tips: if done is Ok {
                    tips_after(old(self)@.tips, record)
                } else {
                    old(self)@.tips
                },
                ..old(self)@
            }),
    {
        match record {
            Record::Identity(_) => match outcome {
                Ok(()) => Ok(()),
                Err(fault) => Err(Error::IdentityInsertionError(fault)),
            },
            Record::Actor(_) => match outcome {
                Ok(()) => Ok(()),
                Err(fault) => Err(Error::ActorInsertionError(fault)),
            },
            Record::Transaction(id) => {
                if !self.accepts(&id) {
                    return Err(
                        Error::TransactionOutOfOrder { tip: self.tip(&id.actor), index: id.index },
                    );
                }
                match outcome {
                    Err(fault) => Err(Error::TransactionInsertionError(fault)),
                    Ok(()) => {
                        self.advance(&id);
                        Ok(())
                    },
                }
            },
        }
    }

    /// Moves the tip of the log of `id.actor` to `id.index`.
    fn advance(&mut self, id: &TransactionId)
        requires
            old(self).wf(),
        ensures
            final(self).wf(),
            final(self)@ == (DatabaseView {
                tips: old(self)@.tips.insert(id.actor, id.index),
                ..old(self)@
            }),
    {
        let ghost before = self.heads@;
        let head = LogHead { actor: id.actor, tip: id.index };
        match self.find_head(&id.actor) {
            Some(at) => {
                self.heads.set(at, head);
                proof {
                    lemma_head_put(before, self.heads@, at as int, head);
                }
            },
            None => {
                self.heads.push(head);
                proof {
                    assert forall|i: int| 0 <= i < before.len() implies before[i].actor
                        != id.actor by {
                        lemma_head_at(before, i);
                    }
                    lemma_head_put(before, self.heads@, before.len() as int, head);
                }
            },
        }
    }

    /// The read that fetches the identity under `id`.
    pub fn find_identity(&self, id: &ActorId) -> (read: ReadOp)
        ensures
            read@ == (ReadOpView { record: Record::Identity(*id), key: id@ }),
    {
        let mut key: Vec<u8> = Vec::new();
        crate::codec::append(&mut key, &id.0);
        ReadOp { record: Record::Identity(*id), key }
    }

    /// The read that fetches the actor record under `id`.
    pub fn find_actor(&self, id: &ActorId) -> (read: ReadOp)
        ensures
            read@ == (ReadOpView { record: Record::Actor(*id), key: id@ }),
    {
        let mut key: Vec<u8> = Vec::new();
        crate::codec::append(&mut key, &id.0);
        ReadOp { record: Record::Actor(*id), key }
    }

    /// The read that fetches the transaction at `id`.
    pub fn find_transaction(&self, id: &TransactionId) -> (read: ReadOp)
        ensures
            read@ == (ReadOpView { record: Record::Transaction(*id), key: transaction_key(*id) }),
    {
        ReadOp { record: Record::Transaction(*id), key: id.to_key() }
    }

    /// What a read of the identity under `id` came to.
    pub fn get_identity(&self, id: &ActorId, fetched: Result<Vec<u8>, StoreFault>) -> (identity:
        Result<Option<Identity>, Error>)
        ensures
            result_view(identity) == identity_read(*id, fetched_view(fetched)),
    {
        match optionalize_lmdb_get(fetched) {
            Err(fault) => Err(Error::FetchError("identity", id.to_string(), fault)),
            Ok(None) => Ok(None),
            Ok(Some(bytes)) => match decode_identity(bytes.as_slice()) {
                Some(identity) => Ok(Some(identity)),
                None => Err(Error::DeserializationError("identity", id.to_string())),
            },
        }
    }

    /// What a read of the actor record under `id` came to.
    pub fn get_actor(&self, id: &ActorId, fetched: Result<Vec<u8>, StoreFault>) -> (actor: Result<
        Option<Actor>,
        Error,
    >)
        ensures
            result_view(actor) == actor_read(*id, fetched_view(fetched)),
    {
        match optionalize_lmdb_get(fetched) {
            Err(fault) => Err(Error::FetchError("actor", id.to_string(), fault)),
            Ok(None) => Ok(None),
            Ok(Some(bytes)) => match decode_actor(bytes.as_slice()) {
                Some(actor) => Ok(Some(actor)),
                None => Err(Error::DeserializationError("actor", id.to_string())),
            },
        }
    }

    /// What a read of the transaction at `id` came to.
    pub fn get_transaction(&self, id: &TransactionId, fetched: Result<Vec<u8>, StoreFault>) -> (
    transaction: Result<Option<Transaction>, Error>)
        ensures
            match transaction {
                Ok(Some(transaction)) => transaction_read(*id, fetched_view(fetched)) == Ok::<
                    Option<TransactionView>,
                    ErrorView,
                >(Some(transaction@)),
                Ok(None) => transaction_read(*id, fetched_view(fetched)) == Ok::<
                    Option<TransactionView>,
                    ErrorView,
                >(None),
                Err(error) => transaction_read(*id, fetched_view(fetched)) == Err::<
                    Option<TransactionView>,
                    ErrorView,
                >(error@),
            },
    {
        match optionalize_lmdb_get(fetched) {
            Err(fault) => {
                let key = id.to_key();
                Err(Error::FetchError("transaction", hex_encode(key.as_slice()), fault))
            },
            Ok(None) => Ok(None),
            Ok(Some(bytes)) => match decode_transaction(bytes.as_slice()) {
                Some(transaction) => Ok(Some(transaction)),
                None => {
                    let key = id.to_key();
                    Err(Error::DeserializationError("transaction", hex_encode(key.as_slice())))
                },
            },
        }
    }
}

/// How a write ends for its caller: the transaction that does not continue
/// its log is refused first, then a failed write is reported as the insertion
/// error of its namespace.
pub open spec fn committed(
    tips: Map<ActorId, u64>,
    record: Record,
    outcome: Result<(), StoreFault>,
) -> Result<(), Error> {
    match record {
        Record::Identity(_) => match outcome {
            Ok(_) => Ok(()),
            Err(fault) => Err(Error::IdentityInsertionError(fault)),
        },
        Record::Actor(_) => match outcome {
            Ok(_) => Ok(()),
            Err(fault) => Err(Error::ActorInsertionError(fault)),
        },
        Record::Transaction(id) => if !continues(tips, id) {
            Err(Error::TransactionOutOfOrder { tip: tip_of(tips, id.actor), index: id.index })
        } else {
            match outcome {
                Ok(_) => Ok(()),
                Err(fault) => Err(Error::TransactionInsertionError(fault)),
            }
        },
    }
}

/// The tips once `record` has been written.
pub open spec fn tips_after(tips: Map<ActorId, u64>, record: Record) -> Map<ActorId, u64> {
    match record {
        Record::Transaction(id) => appended(tips, id),
        _ => tips,
    }
}

/// One thing to do while the store is opened.
#[derive(Clone, Copy, Debug, PartialEq, Eq)]
pub enum OpenStep {
    /// Open the environment, creating its directory if it is not there.
    OpenEnvironment,
    /// Open the namespace, creating it if it is not there.
    CreateNamespace(Namespace),
    /// Read how many records the namespace holds.
    ReadStatistics(Namespace),
    /// List the keys of all transactions, in the order of the keys.
    ListTransactions,
}

/// The step that follows `completed` finished steps: the environment, the
/// three namespaces, their three record counts, and the list of transaction
/// keys.
pub open spec fn step_at(completed: u8) -> OpenStep {
    if completed == 0 {
        OpenStep::OpenEnvironment
    } else if completed == 1 {
        OpenStep::CreateNamespace(Namespace::Identities)
    } else if completed == 2 {
        OpenStep::CreateNamespace(Namespace::Actors)
    } else if completed == 3 {
        OpenStep::CreateNamespace(Namespace::Transactions)
    } else if completed == 4 {
        OpenStep::ReadStatistics(Namespace::Identities)
    } else if completed == 5 {
        OpenStep::ReadStatistics(Namespace::Actors)
    } else if completed == 6 {
        OpenStep::ReadStatistics(Namespace::Transactions)
    } else {
        OpenStep::ListTransactions
    }
}

/// The error that a fault in `step` is reported as.
pub open spec fn step_failure(step: OpenStep, fault: StoreFault) -> ErrorView {
    match step {
        OpenStep::OpenEnvironment => ErrorView::DatabaseInitializationError("environment"@, fault),
        OpenStep::CreateNamespace(Namespace::Identities) => {
            ErrorView::DatabaseInitializationError("identity database"@, fault)
        },
        OpenStep::CreateNamespace(Namespace::Actors) => ErrorView::DatabaseInitializationError(
            "actor database"@,
            fault,
        ),
        OpenStep::CreateNamespace(Namespace::Transactions) => {
            ErrorView::DatabaseInitializationError("transaction database"@, fault)
        },
        OpenStep::ReadStatistics(Namespace::Identities) => ErrorView::StatusFetchFailed(
            "identity"@,
            fault,
        ),
        OpenStep::ReadStatistics(Namespace::Actors) => ErrorView::StatusFetchFailed(
            "actor"@,
            fault,
        ),
        OpenStep::ReadStatistics(Namespace::Transactions) => ErrorView::StatusFetchFailed(
            "transaction"@,
            fault,
        ),
        OpenStep::ListTransactions => ErrorView::StatusFetchFailed("transaction log"@, fault),
    }
}

/// How a step ended.
#[derive(Clone, Debug, PartialEq, Eq)]
pub enum StepOutcome {
    /// The environment or a namespace is open.
    Done,
    /// The number of records in a namespace.
    Count(u64),
    /// The keys of all transactions.
    Keys(Vec<Vec<u8>>),
    /// The step failed.
    Failed(StoreFault),
}

/// The outcome of a step as a mathematical value.
pub enum StepOutcomeView {
    Done,
    Count(u64),
    Keys(Seq<Seq<u8>>),
    Failed(StoreFault),
}

/// A list of keys as a mathematical value.
pub open spec fn keys_view(keys: Seq<Vec<u8>>) -> Seq<Seq<u8>> {
    Seq::new(keys.len(), |i: int| keys[i]@)
}

impl View for StepOutcome {
    type V = StepOutcomeView;

    open spec fn view(&self) -> StepOutcomeView {
        match *self {
            StepOutcome::Done => StepOutcomeView::Done,
            StepOutcome::Count(count) => StepOutcomeView::Count(count),
            StepOutcome::Keys(keys) => StepOutcomeView::Keys(keys_view(keys@)),
            StepOutcome::Failed(fault) => StepOutcomeView::Failed(fault),
        }
    }
}

/// A store that is being opened: the steps finished so far and what they found.
#[derive(Clone, Debug, PartialEq, Eq)]
pub struct Opening {
    pub path: String,
    pub completed: u8,
    pub identities: u64,
    pub actors: u64,
    pub transactions: u64,
}

/// A store that is being opened, as a mathematical value.
pub struct OpeningView {
    pub path: Seq<char>,
    pub completed: u8,
    pub identities: u64,
    pub actors: u64,
    pub transactions: u64,
}

impl View for Opening {
    type V = OpeningView;

    open spec fn view(&self) -> OpeningView {
        OpeningView {
            path: self.path@,
            completed: self.completed,
            identities: self.identities,
            actors: self.actors,
            transactions: self.transactions,
        }
    }
}

/// Where the opening of a store stands after a step.
pub enum Progress {
    /// More steps are to be done.
    Pending(Opening),
    /// The store is open.
    Ready(Database),
}

/// Where the opening of a store stands, as a mathematical value.
pub enum ProgressView {
    Pending(OpeningView),
    Ready(DatabaseView),
}

impl View for Progress {
    type V = ProgressView;

    open spec fn view(&self) -> ProgressView {
        match *self {
            Progress::Pending(opening) => ProgressView::Pending(opening@),
            Progress::Ready(database) => ProgressView::Ready(database@),
        }
    }
}

/// The tips of the logs whose transactions have the given keys, read in
/// order. A key that names no position is a deserialization error; one that
/// does not continue its actor's log is out of order.
pub open spec fn loaded(tips: Map<ActorId, u64>, keys: Seq<Seq<u8>>) -> Result<
    Map<ActorId, u64>,
    ErrorView,
>
    decreases keys.len(),
{
    if keys.len() == 0 {
        Ok(tips)
    } else {
        match transaction_id_of(keys[0]) {
            None => Err(ErrorView::DeserializationError("transaction"@, hex_lower(keys[0]))),
            Some(id) => if continues(tips, id) {
                loaded(appended(tips, id), keys.skip(1))
            } else {
                Err(
                    ErrorView::TransactionOutOfOrder {
                        tip: tip_of(tips, id.actor),
                        index: id.index,
                    },
                )
            },
        }
    }
}

/// What a step's outcome leads to.
///
/// A fault ends the opening with the error of the step. An outcome of
/// another kind than the step gives is reported as that step's state error.
/// The last step ends with the store open, unless the keys that it lists
/// are not those of gapless logs.
pub open spec fn advanced(opening: OpeningView, outcome: StepOutcomeView) -> Result<
    ProgressView,
    ErrorView,
> {
    let step = step_at(opening.completed);
    match (step, outcome) {
        (_, StepOutcomeView::Failed(fault)) => Err(step_failure(step, fault)),
        (OpenStep::OpenEnvironment, StepOutcomeView::Done) => Ok(
            ProgressView::Pending(
                OpeningView { completed: (opening.completed + 1) as u8, ..opening },
            ),
        ),
        (OpenStep::CreateNamespace(_), StepOutcomeView::Done) => Ok(
            ProgressView::Pending(
                OpeningView { completed: (opening.completed + 1) as u8, ..opening },
            ),
        ),
        (OpenStep::ReadStatistics(Namespace::Identities), StepOutcomeView::Count(count)) => Ok(
            ProgressView::Pending(
                OpeningView {
                    completed: (opening.completed + 1) as u8,
                    identities: count,
                    ..opening
                },
            ),
        ),
        (OpenStep::ReadStatistics(Namespace::Actors), StepOutcomeView::Count(count)) => Ok(
            ProgressView::Pending(
                OpeningView { completed: (opening.completed + 1) as u8, actors: count, ..opening },
            ),
        ),
        (OpenStep::ReadStatistics(Namespace::Transactions), StepOutcomeView::Count(count)) => Ok(
            ProgressView::Pending(
                OpeningView {
                    completed: (opening.completed + 1) as u8,
                    transactions: count,
                    ..opening
                },
            ),
        ),
        (OpenStep::ListTransactions, StepOutcomeView::Keys(keys)) => match loaded(
            Map::empty(),
            keys,
        ) {
            Ok(tips) => Ok(
                ProgressView::Ready(
                    DatabaseView {
                        path: opening.path,
                        identities: opening.identities,
                        actors: opening.actors,
                        transactions: opening.transactions,
                        tips,
                    },
                ),
            ),
            Err(error) => Err(error),
        },
        _ => Err(step_failure(step, StoreFault::StateError)),
    }
}

/// What a run of outcomes leads to, each taken as the outcome of the step
/// that is due. Outcomes after the one that opens the store are not looked
/// at. If they run out before the store is open, the step that is due is
/// reported as failed with a state error.
pub open spec fn opened(opening: OpeningView, outcomes: Seq<StepOutcomeView>) -> Result<
    DatabaseView,
    ErrorView,
>
    decreases outcomes.len(),
{
    if outcomes.len() == 0 {
        Err(step_failure(step_at(opening.completed), StoreFault::StateError))
    } else {
        match advanced(opening, outcomes[0]) {
            Err(error) => Err(error),
            Ok(ProgressView::Ready(database)) => Ok(database),
            Ok(ProgressView::Pending(next)) => opened(next, outcomes.skip(1)),
        }
    }
}

/// A store of which no step is done yet.
pub open spec fn unopened(path: Seq<char>) -> OpeningView {
    OpeningView { path, completed: 0, identities: 0, actors: 0, transactions: 0 }
}

/// A run of outcomes as a mathematical value.
pub open spec fn outcomes_view(outcomes: Seq<StepOutcome>) -> Seq<StepOutcomeView> {
    Seq::new(outcomes.len(), |i: int| outcomes[i]@)
}

impl Opening {
    /// The step that is due.
    pub fn step(&self) -> (step: OpenStep)
        ensures
            step == step_at(self.completed),
    {
        if self.completed == 0 {
            OpenStep::OpenEnvironment
        } else if self.completed == 1 {
            OpenStep::CreateNamespace(Namespace::Identities)
        } else if self.completed == 2 {
            OpenStep::CreateNamespace(Namespace::Actors)
        } else if self.completed == 3 {
            OpenStep::CreateNamespace(Namespace::Transactions)
        } else if self.completed == 4 {
            OpenStep::ReadStatistics(Namespace::Identities)
        } else if self.completed == 5 {
            OpenStep::ReadStatistics(Namespace::Actors)
        } else if self.completed == 6 {
            OpenStep::ReadStatistics(Namespace::Transactions)
        } else {
            OpenStep::ListTransactions
        }
    }

    /// The error that a fault in the step that is due is reported as.
    fn failure(&self, fault: StoreFault) -> (error: Error)
        ensures
            error@ == step_failure(step_at(self.completed), fault),
    {
        match self.step() {
            OpenStep::OpenEnvironment => Error::DatabaseInitializationError("environment", fault),
            OpenStep::CreateNamespace(Namespace::Identities) => {
                Error::DatabaseInitializationError("identity database", fault)
            },
            OpenStep::CreateNamespace(Namespace::Actors) => Error::DatabaseInitializationError(
                "actor database",
                fault,
            ),
            OpenStep::CreateNamespace(Namespace::Transactions) => {
                Error::DatabaseInitializationError("transaction database", fault)
            },
            OpenStep::ReadStatistics(Namespace::Identities) => Error::StatusFetchFailed(
                "identity",
                fault,
            ),
            OpenStep::ReadStatistics(Namespace::Actors) => Error::StatusFetchFailed(
                "actor",
                fault,
            ),
            OpenStep::ReadStatistics(Namespace::Transactions) => Error::StatusFetchFailed(
                "transaction",
                fault,
            ),
            OpenStep::ListTransactions => Error::StatusFetchFailed("transaction log", fault),
        }
    }

    /// Takes the outcome of the step that is due and says how the opening
    /// goes on.
    pub fn advance(self, outcome: &StepOutcome) -> (progress: Result<Progress, Error>)
        ensures
            match progress {
                Ok(progress) => advanced(self@, outcome@) == Ok::<ProgressView, ErrorView>(
                    progress@,
                ) && (progress matches Progress::Ready(database) ==> database.wf()),
                Err(error) => advanced(self@, outcome@) == Err::<ProgressView, ErrorView>(error@),
            },
    {
        let step = self.step();
        match outcome {
            StepOutcome::Failed(fault) => Err(self.failure(*fault)),
            StepOutcome::Done => match step {
                OpenStep::OpenEnvironment | OpenStep::CreateNamespace(_) => Ok(
                    Progress::Pending(Opening { completed: self.completed + 1, ..self }),
                ),
                _ => Err(self.failure(StoreFault::StateError)),
            },
            StepOutcome::Count(count) => match step {
                OpenStep::ReadStatistics(Namespace::Identities) => Ok(
                    Progress::Pending(
                        Opening { completed: self.completed + 1, identities: *count, ..self },
                    ),
                ),
                OpenStep::ReadStatistics(Namespace::Actors) => Ok(
                    Progress::Pending(
                        Opening { completed: self.completed + 1, actors: *count, ..self },
                    ),
                ),
                OpenStep::ReadStatistics(Namespace::Transactions) => Ok(
                    Progress::Pending(
                        Opening { completed: self.completed + 1, transactions: *count, ..self },
                    ),
                ),
                _ => Err(self.failure(StoreFault::StateError)),
            },
            StepOutcome::Keys(keys) => match step {
                OpenStep::ListTransactions => {
                    let mut database = Database {
                        path: self.path,
                        identities: self.identities,
                        actors: self.actors,
                        transactions: self.transactions,
                        heads: Vec::new(),
                    };
                    assert(database@.tips =~= Map::empty());
                    match database.load(keys) {
                        Ok(()) => Ok(Progress::Ready(database)),
                        Err(error) => Err(error),
                    }
                },
                _ => Err(self.failure(StoreFault::StateError)),
            },
        }
    }
}

impl Database {
    /// Begins to open the store at `path`. No step is done yet.
    pub fn new(path: String) -> (opening: Opening)
        ensures
            opening@ == unopened(path@),
    {
        Opening { path, completed: 0, identities: 0, actors: 0, transactions: 0 }
    }

    /// Opens the store at `path` from the outcomes of the steps, in the order
    /// in which the steps are due.
    pub fn sync_new(path: String, outcomes: &Vec<StepOutcome>) -> (database: Result<
        Database,
        Error,
    >)
        ensures
            match database {
                Ok(database) => database.wf() && opened(
                    unopened(path@),
                    outcomes_view(outcomes@),
                ) == Ok::<DatabaseView, ErrorView>(database@),
                Err(error) => opened(unopened(path@), outcomes_view(outcomes@)) == Err::<
                    DatabaseView,
                    ErrorView,
                >(error@),
            },
    {
        let ghost start = unopened(path@);
        let ghost all = outcomes_view(outcomes@);
        let mut opening = Database::new(path);
        let mut i: usize = 0;
        assert(all.skip(0) =~= all);
        while i < outcomes.len()
            invariant
                i <= outcomes@.len(),
                start == unopened(path@),
                all == outcomes_view(outcomes@),
                opened(start, all) == opened(opening@, all.skip(i as int)),
            decreases outcomes@.len() - i,
        {
            let ghost due = opening@;
            assert(all.skip(i as int).len() > 0);
            assert(all.skip(i as int)[0] == outcomes@[i as int]@);
            assert(all.skip(i as int).skip(1) =~= all.skip(i + 1));
            assert(opened(due, all.skip(i as int)) == match advanced(due, outcomes@[i as int]@) {
                Err(error) => Err(error),
                Ok(ProgressView::Ready(database)) => Ok(database),
                Ok(ProgressView::Pending(next)) => opened(next, all.skip(i + 1)),
            });
            match opening.advance(&outcomes[i]) {
                Err(error) => {
                    return Err(error);
                },
                Ok(Progress::Ready(database)) => {
                    return Ok(database);
                },
                Ok(Progress::Pending(next)) => {
                    opening = next;
                },
            }
            i += 1;
        }
        Err(opening.failure(StoreFault::StateError))
    }

    /// Reads the keys of the stored transactions, in order, and notes the tip
    /// of each actor's log.
    fn load(&mut self, keys: &Vec<Vec<u8>>) -> (done: Result<(), Error>)
        requires
            old(self).wf(),
        ensures
            final(self).wf(),
            match done {
                Ok(_) => loaded(old(self)@.tips, keys_view(keys@)) == Ok::<
                    Map<ActorId, u64>,
                    ErrorView,
                >(final(self)@.tips) && final(self)@ == (DatabaseView {
                    tips: final(self)@.tips,
                    ..old(self)@
                }),
                Err(error) => loaded(old(self)@.tips, keys_view(keys@)) == Err::<
                    Map<ActorId, u64>,
                    ErrorView,
                >(error@),
            },
    {
        let ghost all = keys_view(keys@);
        let mut i: usize = 0;
        assert(all.skip(0) =~= all);
        while i < keys.len()
            invariant
                self.wf(),
                i <= keys@.len(),
                all == keys_view(keys@),
                loaded(old(self)@.tips, all) == loaded(self@.tips, all.skip(i as int)),
                self@ == (DatabaseView { tips: self@.tips, ..old(self)@ }),
            decreases keys@.len() - i,
        {
            assert(all.skip(i as int)[0] == keys@[i as int]@);
            assert(all.skip(i as int).skip(1) =~= all.skip(i + 1));
            match TransactionId::from_key(keys[i].as_slice()) {
                None => {
                    return Err(
                        Error::DeserializationError("transaction", hex_encode(keys[i].as_slice())),
                    );
                },
                Some(id) => {
                    if !self.accepts(&id) {
                        return Err(
                            Error::TransactionOutOfOrder {
                                tip: self.tip(&id.actor),
                                index: id.index,
                            },
                        );
                    }
                    self.advance(&id);
                },
            }
            i += 1;
        }
        Ok(())
    }
}

} // verus!
