//! The store that owns the currently published configuration snapshot.
//! Readers get the snapshot that was current at call time; a swap
//! replaces the published snapshot with one that was already built in
//! full. A failed rebuild never touches the published snapshot.

use vstd::prelude::*;
use crate::config::{ConfigError, Opa};

verus! {

/// Owns the one published snapshot. The only way a snapshot gets in is
/// `new`, `swap` or `apply_reload`, each of which demands a fully built,
/// well-formed value, so a reader can never observe a half-made one.
pub struct ConfigStore {
    current: Opa,
}

impl ConfigStore {
    /// The currently published snapshot.
    pub closed spec fn snapshot(self) -> Opa {
        self.current
    }

    /// The store is well formed when its published snapshot is.
    pub open spec fn wf(self) -> bool {
        self.snapshot().wf()
    }

    /// Publishes the initial snapshot. Startup is fail-hard: the caller
    /// must already hold a well-formed snapshot before serving begins.
    pub fn new(initial: Opa) -> (s: ConfigStore)
        requires
            initial.wf(),
        ensures
            s.snapshot() == initial,
            s.wf(),
    {
        ConfigStore { current: initial }
    }

    /// Hands out the snapshot that is current at call time. The borrow is
    /// the reader's handle: one snapshot, for the whole request.
    pub fn read(&self) -> (r: &Opa)
        ensures
            *r == self.snapshot(),
    {
        &self.current
    }

    /// Replaces the published snapshot. The new snapshot arrives fully
    /// built: nothing is constructed while the store is being written.
    pub fn swap(&mut self, new: Opa)
        requires
            new.wf(),
        ensures
            final(self).snapshot() == new,
            final(self).wf(),
    {
        self.current = new;
    }

    /// Whether the service is ready: a policy has been loaded at least
    /// once.
    pub fn is_ready(&self) -> (r: bool)
        ensures
            r <==> self.snapshot().policy is Some,
    {
        self.current.policy.is_some()
    }

    /// Finishes a reload: publishes the rebuilt snapshot if construction
    /// succeeded, and otherwise leaves the store exactly as it was — the
    /// previous snapshot stays authoritative.
    pub fn apply_reload(&mut self, built: Result<Opa, ConfigError>) -> (r: bool)
        requires
            built matches Ok(s) ==> s.wf(),
        ensures
            built is Err ==> !r && *final(self) == *old(self),
            built matches Ok(s) ==> r && final(self).snapshot() == s && final(self).wf(),
    {
        match built {
            Ok(s) => {
                self.swap(s);
                true
            },
            Err(_) => false,
        }
    }
}

/// Law: a well-formed store publishes only well-formed snapshots; what
/// `read` returns is always a snapshot that was fully constructed before
/// it was published.
pub proof fn lemma_read_well_formed(s: ConfigStore)
    requires
        s.wf(),
    ensures
        s.snapshot().wf(),
{
}

} // verus!
