//! The in-memory backend as concurrent request handlers share it: one
//! repository guarded by a single reader/writer lock. Readers (`list`,
//! `get`) may proceed together and each sees a fully-formed snapshot of the
//! store at acquisition time; writers (`create`, `update`, `delete`) are
//! mutually exclusive with all readers and all other writers, so a write's
//! effects become visible atomically and check-then-act sequences (the
//! conflict check of `create`, the presence checks of `update` and
//! `delete`) happen under one lock acquisition — no lost-update race.
//!
//! The store itself is the only shared resource; what each operation does
//! to it, per state, is the contract of [`MemRepo`]. The contracts here
//! state what holds of the values a caller receives, whatever other
//! operations run concurrently.

use vstd::prelude::*;
use vstd::rwlock::{RwLock, RwLockPredicate};
use crate::entity::{Dino, RepoError};
use crate::repo::{updated_view, MemRepo};

verus! {

/// What the lock may store: any repository value — well-formedness (at most
/// one live record per identifier) is already the repository's own type
/// invariant.
pub struct StorePred {}

impl RwLockPredicate<MemRepo> for StorePred {
    open spec fn inv(self, v: MemRepo) -> bool {
        true
    }
}

/// A repository instance shared by reference among concurrent callers; the
/// lock serializes conflicting accesses internally, so callers need no
/// external synchronization. Constructed once at startup and passed by
/// capability into the handling layer — no ambient global.
pub struct SharedRepo {
    lock: RwLock<MemRepo, StorePred>,
}

impl SharedRepo {
    /// A shared repository over an empty store.
    pub fn new() -> Self {
        SharedRepo { lock: RwLock::new(MemRepo::new(), Ghost(StorePred {})) }
    }

    /// Create a record under the write lock: the conflict check and the
    /// insertion form one atomic section. A successful result is an
    /// independent copy of exactly the record now stored, which is visible
    /// to every later acquisition.
    pub fn create(&self, d: Dino) -> (r: Result<Dino, RepoError>)
        ensures
            r matches Ok(s) ==> s@ == d@,
    {
        let (mut repo, handle) = self.lock.acquire_write();
        let r = repo.create(d);
        handle.release_write(repo);
        r
    }

    /// Read one record under a read lock, sharing it with other readers: an
    /// independent copy of the stored value carrying the requested
    /// identifier, or the absence marker.
    pub fn get(&self, name: &String) -> (r: Option<Dino>)
        ensures
            r matches Some(s) ==> s@.name == name@,
    {
        let handle = self.lock.acquire_read();
        let r = handle.borrow().get(name);
        handle.release_read();
        r
    }

    /// Replace every mutable field of a live record under the write lock;
    /// the presence check and the replacement form one atomic section. A
    /// present result is wholly the caller's record under the requested
    /// identifier — never a mix of old and new fields.
    pub fn update(&self, name: &String, d: Dino) -> (r: Option<Dino>)
        ensures
            r matches Some(s) ==> s@ == updated_view(name@, d@),
    {
        let (mut repo, handle) = self.lock.acquire_write();
        let r = repo.update(name, d);
        handle.release_write(repo);
        r
    }

    /// Remove a live record under the write lock; presence and absence are
    /// both normal outcomes. What each reports of the store, per state, is
    /// the contract of [`MemRepo::delete`].
    pub fn delete(&self, name: &String) -> (r: Option<()>) {
        let (mut repo, handle) = self.lock.acquire_write();
        let r = repo.delete(name);
        handle.release_write(repo);
        r
    }

    /// Snapshot every live record under a read lock, sharing it with other
    /// readers: the copies come from one store state at acquisition time,
    /// so no record is ever half-written and no identifier appears twice.
    pub fn list(&self) -> (r: Vec<Dino>)
        ensures
            forall|i: int, j: int| 0 <= i < j < r@.len() ==> r@[i]@.name != r@[j]@.name,
    {
        let handle = self.lock.acquire_read();
        let r = handle.borrow().list();
        handle.release_read();
        r
    }
}

} // verus!
