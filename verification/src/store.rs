//! The store that owns the live manifest.
//!
//! A store is made from a manifest that keeps every rule, and every change
//! replaces the manifest as a whole by another one that does. What a reader
//! gets is a copy: nothing outside the store can change what it holds.

use crate::decode::{answer, load_heim, loaded};
use crate::error::{ErrorKind, HeimError};
use crate::manifest::{lemma_resolved_is_safe, resolve, valid, Artifact, Heim, HeimView};
use crate::paths::stays_below;
use vstd::prelude::*;

verus! {

/// The holder of the live manifest.
#[derive(Debug)]
pub struct Store {
    current: Heim,
}

impl View for Store {
    type V = HeimView;

    closed spec fn view(&self) -> HeimView {
        self.current@
    }
}

impl Store {
    #[verifier::type_invariant]
    spec fn holds_valid(self) -> bool {
        valid(self.current@)
    }

    /// A store that holds the given manifest, where it keeps every rule.
    pub fn new(manifest: Heim) -> (outcome: Result<Store, HeimError>)
        ensures
            match outcome {
                Ok(store) => valid(manifest@) && store@ == manifest@,
                Err(error) => !valid(manifest@) && error.kind == ErrorKind::ValidationError
                    && error.plain(),
            },
    {
        match manifest.check() {
            Ok(()) => Ok(Store { current: manifest }),
            Err(error) => Err(error),
        }
    }

    /// A copy of the live manifest. It keeps every rule of validation.
    pub fn current(&self) -> (snapshot: Heim)
        ensures
            snapshot@ == self@,
            valid(snapshot@),
    {
        proof {
            use_type_invariant(self);
        }
        self.current.clone()
    }

    /// The root directory of the live manifest.
    pub fn root_path(&self) -> (root_path: String)
        ensures
            root_path@ == self@.deploy.root_path,
    {
        self.current.deploy.root_path.clone()
    }

    /// How many artifacts the live manifest has.
    pub fn artifact_count(&self) -> (count: usize)
        ensures
            count == self@.deploy.artifacts.len(),
    {
        self.current.deploy.artifacts.len()
    }

    /// A copy of the artifact that a deployment of `id` is about. Its
    /// destination stays below the root directory.
    pub fn artifact(&self, id: &str) -> (found: Option<Artifact>)
        ensures
            found.deep_view() == resolve(self@, id@),
            found matches Some(artifact) ==> artifact@.id == id@ && stays_below(
                self@.deploy.root_path,
                artifact@.destination,
            ),
    {
        proof {
            use_type_invariant(self);
            if resolve(self@, id@) is Some {
                lemma_resolved_is_safe(self@, id@);
            }
        }
        match self.current.artifact(id) {
            Some(artifact) => Some(artifact.clone()),
            None => None,
        }
    }

    /// Puts another manifest in the place of the live one, where it keeps
    /// every rule. One that does not is refused, and the live manifest stays.
    pub fn replace(&mut self, manifest: Heim) -> (outcome: Result<(), HeimError>)
        ensures
            match outcome {
                Ok(()) => valid(manifest@) && final(self)@ == manifest@,
                Err(error) => !valid(manifest@) && error.kind == ErrorKind::ValidationError
                    && error.plain() && final(self)@ == old(self)@,
            },
    {
        match manifest.check() {
            Ok(()) => {
                self.current = manifest;
                Ok(())
            },
            Err(error) => Err(error),
        }
    }

    /// One attempt to reload, from what was read of the manifest's file:
    /// `None` where it could not be read. On success the manifest that was
    /// read is the live one, and the answer is the number of its artifacts.
    /// On any failure the live manifest stays as it was.
    pub fn reload(&mut self, content: Option<&str>) -> (outcome: Result<usize, HeimError>)
        ensures
            match loaded(
                match content {
                    Some(text) => Some(text@),
                    None => None,
                },
            ) {
                Ok(manifest) => final(self)@ == manifest && outcome == Ok::<usize, HeimError>(
                    manifest.deploy.artifacts.len() as usize,
                ),
                Err(kind) => final(self)@ == old(self)@ && outcome is Err && outcome->Err_0.kind
                    == kind && outcome->Err_0.plain(),
            },
    {
        match load_heim(content) {
            Ok(manifest) => {
                let count = manifest.deploy.artifacts.len();
                self.current = manifest;
                Ok(count)
            },
            Err(error) => Err(error),
        }
    }
}

} // verus!
