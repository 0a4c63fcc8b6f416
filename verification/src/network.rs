//! The node: a storage engine and an overlay under one roof.

use crate::database::{
    identity_read, fetched_view, opened, outcomes_view, unopened, Database, DatabaseView, Record,
    StepOutcome, StoreFault, WriteOp, WriteOpView,
};
use crate::codec::identity_bytes;
use crate::model::{ActorId, Identity, Keypair};
use crate::overlay::{handles, Overlay, OverlayView};
use vstd::prelude::*;

verus! {

/// What went wrong in the node.
#[derive(Clone, Debug, PartialEq, Eq)]
pub enum Error {
    /// The storage engine failed.
    DatabaseError(crate::database::Error),
}

/// An error as a mathematical value.
pub enum ErrorView {
    DatabaseError(crate::database::ErrorView),
}

impl View for Error {
    type V = ErrorView;

    open spec fn view(&self) -> ErrorView {
        match *self {
            Error::DatabaseError(error) => ErrorView::DatabaseError(error@),
        }
    }
}

impl From<crate::database::Error> for Error {
    fn from(error: crate::database::Error) -> (wrapped: Error) {
        Error::DatabaseError(error)
    }
}

impl vstd::std_specs::convert::FromSpecImpl<crate::database::Error> for Error {
    open spec fn obeys_from_spec() -> bool {
        true
    }

    open spec fn from_spec(error: crate::database::Error) -> Error {
        Error::DatabaseError(error)
    }
}

/// A new identity that is not stored yet: its id, the key pair, and the write
/// that stores it.
#[derive(Clone, Debug, PartialEq, Eq)]
pub struct PendingIdentity {
    pub id: ActorId,
    pub identity: Identity,
    pub write: WriteOp,
}

impl PendingIdentity {
    /// The id is that of the identity, and the write stores the identity
    /// under its id.
    pub open spec fn wf(self) -> bool {
        &&& self.id@ == self.identity.spec_id()
        &&& self.write@ == (WriteOpView {
            record: Record::Identity(self.id),
            key: self.id@,
            value: identity_bytes(self.identity),
        })
    }
}

/// A node of the network.
#[derive(Debug)]
pub struct Network {
    pub database: Database,
    pub overlay: Overlay,
}

impl Network {
    /// The invariants of the two parts.
    pub open spec fn wf(&self) -> bool {
        self.database.wf() && self.overlay.wf()
    }

    /// Opens the store at `database_path` from the outcomes of the steps of
    /// its opening, and puts an overlay beside it that is not started yet.
    pub fn new(database_path: String, outcomes: &Vec<StepOutcome>, strike_limit: u32) -> (network:
        Result<Network, Error>)
        ensures
            match network {
                Ok(network) => network.wf() && opened(
                    unopened(database_path@),
                    outcomes_view(outcomes@),
                ) == Ok::<DatabaseView, crate::database::ErrorView>(network.database@)
                    && network.overlay@ == (OverlayView {
                    identity: None,
                    live: Seq::empty(),
                    denied: Set::empty(),
                    strike_limit,
                    next_handle: 0,
                }),
                Err(error) => error@ matches ErrorView::DatabaseError(cause) && opened(
                    unopened(database_path@),
                    outcomes_view(outcomes@),
                ) == Err::<DatabaseView, crate::database::ErrorView>(cause),
            },
    {
        match Database::sync_new(database_path, outcomes) {
            Ok(database) => Ok(Network { database, overlay: Overlay::new(strike_limit) }),
            Err(error) => Err(Error::DatabaseError(error)),
        }
    }

    /// The id of `identity` and the write that stores it.
    pub fn adopt_identity(&self, identity: Identity) -> (pending: PendingIdentity)
        ensures
            pending.wf(),
            pending.identity == identity,
    {
        let id = identity.id();
        let write = self.database.insert_identity(&id, &identity);
        PendingIdentity { id, identity, write }
    }

    /// Makes a new identity from fresh randomness: a random secret key with
    /// the public key that belongs to it. It counts as the node's once its
    /// write has been made and confirmed.
    pub fn generate_identity(&self) -> (pending: PendingIdentity)
        ensures
            pending.wf(),
            pending.identity.keypair.matched(),
    {
        self.adopt_identity(Identity { keypair: Keypair::generate() })
    }

    /// Takes the outcome of the write of a new identity: its id, or the
    /// insertion error.
    pub fn confirm_identity(&mut self, pending: &PendingIdentity, outcome: Result<(), StoreFault>) -> (
    id: Result<ActorId, Error>)
        requires
            old(self).wf(),
        ensures
            final(self).wf(),
            final(self).database@ == old(self).database@,
            final(self).overlay@ == old(self).overlay@,
            id == match outcome {
                Ok(_) => Ok::<ActorId, Error>(pending.id),
                Err(fault) => Err(
                    Error::DatabaseError(crate::database::Error::IdentityInsertionError(fault)),
                ),
            },
    {
        match self.database.commit(Record::Identity(pending.id), outcome) {
            Ok(()) => Ok(pending.id),
            Err(error) => Err(Error::DatabaseError(error)),
        }
    }

    /// Starts the overlay under the identity stored as `identity_id`, of
    /// which `fetched` is what the store gave. The identity has to be there:
    /// a read that found nothing is no input of this function. If the
    /// identity cannot be read, the overlay is left as it was.
    pub fn start(&mut self, identity_id: &ActorId, fetched: Result<Vec<u8>, StoreFault>) -> (
    started: Result<(), Error>)
        requires
            old(self).wf(),
            !(fetched matches Err(StoreFault::NotFound)),
        ensures
            final(self).wf(),
            final(self).database@ == old(self).database@,
            match identity_read(*identity_id, fetched_view(fetched)) {
                Ok(found) => found is Some && started is Ok && final(self).overlay@ == (
                OverlayView { identity: found, ..old(self).overlay@ }),
                Err(cause) => started matches Err(error) && error@ == ErrorView::DatabaseError(
                    cause,
                ) && final(self).overlay@ == old(self).overlay@,
            },
    {
        match self.database.get_identity(identity_id, fetched) {
            Ok(Some(identity)) => {
                self.overlay.start(identity);
                Ok(())
            },
            Ok(None) => unreached(),
            Err(error) => Err(Error::DatabaseError(error)),
        }
    }

    /// Stops the overlay. The handles that come back are those of the
    /// connections to close; none is live any more.
    pub fn stop(&mut self) -> (closing: Vec<u64>)
        requires
            old(self).wf(),
        ensures
            final(self).wf(),
            final(self).database@ == old(self).database@,
            closing@ == handles(old(self).overlay@.live),
            final(self).overlay@ == (OverlayView {
                identity: None,
                live: Seq::empty(),
                ..old(self).overlay@
            }),
    {
        self.overlay.stop()
    }
}

} // verus!
