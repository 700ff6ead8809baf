//! The engine as its callers share it: the store of the live manifest and
//! the table of the deployments under way, each behind a lock.
//!
//! Readers of the manifest get a copy that was taken while no writer held
//! the store, so nobody ever sees a manifest that is half replaced. What a
//! call answers is what the store and the table say at the moment it holds
//! them; between two calls, other callers may have changed either.

use crate::decode::loaded;
use crate::deploy::{refusal, result_of, started, DeployResult, Deployment};
use crate::error::{ErrorKind, HeimError};
use crate::locks::InFlight;
use crate::manifest::{lemma_resolve_finds, valid, Heim};
use crate::paths::stays_below;
use crate::store::Store;
use vstd::prelude::*;
use vstd::rwlock::{RwLock, RwLockPredicate};

verus! {

/// What may be kept behind the locks of the engine: every store, and every
/// table.
pub struct Kept;

impl RwLockPredicate<Store> for Kept {
    open spec fn inv(self, store: Store) -> bool {
        true
    }
}

impl RwLockPredicate<InFlight> for Kept {
    open spec fn inv(self, table: InFlight) -> bool {
        true
    }
}

/// The store and the table, shared by the watcher of the manifest and by
/// everyone who deploys.
pub struct Engine {
    store: RwLock<Store, Kept>,
    under_way: RwLock<InFlight, Kept>,
}

impl Engine {
    /// An engine around the given store, with no deployment under way.
    pub fn new(store: Store) -> (engine: Engine) {
        Engine {
            store: RwLock::new(store, Ghost(Kept)),
            under_way: RwLock::new(InFlight::new(), Ghost(Kept)),
        }
    }

    /// A copy of the live manifest. It keeps every rule of validation,
    /// whatever reloads were tried before or are tried meanwhile.
    pub fn current(&self) -> (snapshot: Heim)
        ensures
            valid(snapshot@),
    {
        let handle = self.store.acquire_read();
        let snapshot = handle.borrow().current();
        handle.release_read();
        snapshot
    }

    /// One attempt to reload, from what was read of the manifest's file:
    /// `None` where it could not be read. It succeeds exactly where the
    /// content is a manifest that keeps every rule, and then answers with
    /// the number of its artifacts; else the live manifest stays, and the
    /// answer is the category of the failure.
    pub fn reload(&self, content: Option<&str>) -> (outcome: Result<usize, HeimError>)
        ensures
            match loaded(
                match content {
                    Some(text) => Some(text@),
                    None => None,
                },
            ) {
                Ok(manifest) => outcome == Ok::<usize, HeimError>(
                    manifest.deploy.artifacts.len() as usize,
                ),
                Err(kind) => outcome is Err && outcome->Err_0.kind == kind && outcome->Err_0.plain(),
            },
    {
        let (mut store, handle) = self.store.acquire_write();
        let outcome = store.reload(content);
        handle.release_write(store);
        outcome
    }

    /// Begins the deployment of the artifact with the given id, as
    /// `Deployment::begin` does on the live manifest and the table of the
    /// moment: either the first step of a deployment of that artifact is
    /// due, or the request is refused because the manifest has no such
    /// artifact or because a deployment of it is under way.
    pub fn begin(&self, id: &str, attempt: u64) -> (outcome: Result<Deployment, DeployResult>)
        ensures
            match outcome {
                Ok(deployment) => {
                    &&& deployment@.artifact.id == id@
                    &&& deployment@ == started(
                        deployment@.root_path,
                        deployment@.artifact,
                        attempt as nat,
                    )
                    &&& stays_below(deployment@.root_path, deployment@.artifact.destination)
                },
                Err(result) => result@ == refusal(id@, ErrorKind::ArtifactNotFound) || result@
                    == refusal(id@, ErrorKind::DeploymentInProgress),
            },
    {
        let reading = self.store.acquire_read();
        let (mut table, writing) = self.under_way.acquire_write();
        let store = reading.borrow();
        proof {
            lemma_resolve_finds(store@, id@);
        }
        let outcome = Deployment::begin(store, &mut table, id, attempt);
        writing.release_write(table);
        reading.release_read();
        outcome
    }

    /// Ends a deployment: its artifact may be deployed again, and the
    /// answer is what the deployment came to.
    pub fn finish(&self, deployment: Deployment) -> (result: DeployResult)
        ensures
            result@ == result_of(deployment@),
    {
        let (mut table, writing) = self.under_way.acquire_write();
        let result = deployment.finish(&mut table);
        writing.release_write(table);
        result
    }
}

} // verus!
