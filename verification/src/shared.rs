//! The registry as the one piece of state that all connections share.

use crate::channel::{requested_capacity, CHANNEL_CAPACITY};
use crate::registry::Registry;
use crate::status::{get_status, PlaylistResponse};
use tokio::sync::broadcast::Sender;
use vstd::prelude::*;
use vstd::rwlock::{RwLock, RwLockPredicate};

verus! {

/// What the lock of a `SharedRegistry` admits: a registry in which every
/// channel was opened with `CHANNEL_CAPACITY`.
struct AtCapacity;

impl RwLockPredicate<Registry> for AtCapacity {
    open spec fn inv(self, registry: Registry) -> bool {
        forall|name: Seq<char>| #[trigger]
            registry@.contains_key(name) ==> requested_capacity(registry@[name])
                == CHANNEL_CAPACITY
    }
}

/// A registry behind a reader-writer lock, for use by many tasks at once.
/// Lookups share the lock; only the first join of a playlist takes it
/// exclusively, and for no longer than it takes to add the entry.
pub struct SharedRegistry {
    lock: RwLock<Registry, AtCapacity>,
}

impl SharedRegistry {
    /// A shared registry without playlists. What it holds is behind the lock
    /// from the start, where other tasks change it, so no contract speaks of
    /// it; what the lock admits is fixed by its type.
    pub fn new() -> (shared: Self) {
        SharedRegistry { lock: RwLock::new(Registry::new(), Ghost(AtCapacity)) }
    }

    /// The channel of `name`, opened if the playlist does not exist yet.
    ///
    /// Looks the name up under the shared lock first. Only on a miss does it
    /// take the exclusive lock, and there it looks again before it adds the
    /// entry: another task may have added it in between, and then that one is
    /// returned. So all callers that ask for one name get the same channel.
    pub fn get_or_create(&self, name: &str) -> (tx: Sender<String>)
        ensures
            requested_capacity(tx) == CHANNEL_CAPACITY,
    {
        let reader = self.lock.acquire_read();
        let found = reader.borrow().lookup(name);
        reader.release_read();
        match found {
            Some(tx) => tx,
            None => {
                let (mut registry, writer) = self.lock.acquire_write();
                let tx = registry.get_or_create(name);
                writer.release_write(registry);
                tx
            },
        }
    }

    /// The number of users currently subscribed to `name`, zero if the
    /// playlist does not exist. Takes the shared lock only, and adds no entry.
    /// Which playlists exist when the lock is taken depends on the other
    /// tasks, so nothing is promised of the number here:
    /// `Registry::subscriber_count` says what it is for the registry found.
    pub fn subscriber_count(&self, name: &str) -> (count: usize) {
        let reader = self.lock.acquire_read();
        let count: usize = reader.borrow().subscriber_count(name);
        reader.release_read();
        count
    }

    /// The status of the playlist `name`, read under the shared lock.
    pub fn get_status(&self, name: String) -> (status: PlaylistResponse)
        ensures
            status.name == name,
    {
        let reader = self.lock.acquire_read();
        let status = get_status(reader.borrow(), name);
        reader.release_read();
        status
    }
}

} // verus!
