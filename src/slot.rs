//! The shared slot that holds the currently published snapshot.
//!
//! A snapshot is an `Arc<String>` that nobody mutates once it is built. The
//! slot's lock guards only the pointer: a reader holds it for one clone of
//! the `Arc`, the writer for one swap, so no reader ever waits behind a file
//! read, and a reader's copy stays whole while newer snapshots replace it.
use std::sync::Arc;
use vstd::prelude::*;
use vstd::rwlock::{RwLock, RwLockPredicate};

verus! {

/// The slot accepts every snapshot: its guarantee is that each read hands out
/// one published value whole.
pub struct AnySnapshot;

impl RwLockPredicate<Arc<String>> for AnySnapshot {
    open spec fn inv(self, v: Arc<String>) -> bool {
        true
    }
}

/// A handle on a shared snapshot slot; clones share the same slot.
#[derive(Clone)]
pub struct SnapshotSlot {
    cell: Arc<RwLock<Arc<String>, AnySnapshot>>,
}

impl SnapshotSlot {
    /// A slot that holds `initial`.
    pub fn new(initial: Arc<String>) -> (s: Self) {
        SnapshotSlot { cell: Arc::new(RwLock::new(initial, Ghost(AnySnapshot))) }
    }

    /// The currently published snapshot. The lock is held only while the
    /// pointer is cloned.
    pub fn read(&self) -> (snap: Arc<String>) {
        let guard = self.cell.acquire_read();
        let snap = guard.borrow().clone();
        guard.release_read();
        snap
    }

    /// Replaces the published snapshot by `snap`. The earlier one stays valid
    /// for every reader that already holds it.
    pub fn publish(&self, snap: Arc<String>) {
        let (_earlier, guard) = self.cell.acquire_write();
        guard.release_write(snap);
    }
}

} // verus!
