//! The shared, lock-protected handle through which a device is reached.

use crate::device::{Descriptor, Memory};
use crate::error::MemoryError;
use std::sync::Arc;
use vstd::prelude::*;
use vstd::rwlock::{RwLock, RwLockPredicate};

verus! {

impl RwLockPredicate<Memory> for Descriptor {
    /// What every value kept under a device's lock satisfies: it is a device
    /// that can exist, and its fixed part is the one the lock was made for.
    open spec fn inv(self, v: Memory) -> bool {
        v@.valid() && v@.fixed == self
    }
}

/// A memory device shared by all who hold a copy of the handle.
///
/// The device sits behind a lock of its own, so that holders in different
/// places never race on its state. Whatever holders do, the fixed part of the
/// device stays what it was when the handle was made: this is the view.
pub struct MutexMemory {
    shared: Arc<RwLock<Memory, Descriptor>>,
}

impl View for MutexMemory {
    type V = Descriptor;

    closed spec fn view(&self) -> Descriptor {
        self.shared.pred()
    }
}

/// `Arc::clone`: the result points to the allocation that the argument
/// points to, so the two are the same lock.
#[verifier::external_body]
fn share(handle: &Arc<RwLock<Memory, Descriptor>>) -> (copy: Arc<RwLock<Memory, Descriptor>>)
    ensures
        copy == handle,
{
    Arc::clone(handle)
}

impl Clone for MutexMemory {
    /// Another handle to the same device.
    fn clone(&self) -> (copy: Self)
        ensures
            copy == *self,
    {
        MutexMemory { shared: share(&self.shared) }
    }
}

impl MutexMemory {
    /// Puts a device behind a lock and hands out the first handle to it.
    pub fn new(memory: Memory) -> (handle: MutexMemory)
        ensures
            handle@ == memory@.fixed,
    {
        let ghost fixed = memory@.fixed;
        proof {
            use_type_invariant(&memory);
        }
        MutexMemory { shared: Arc::new(RwLock::new(memory, Ghost(fixed))) }
    }

    /// The identifier of the device, read under its lock.
    pub fn id(&self) -> (id: String)
        ensures
            id@ == self@.id,
    {
        let guard = self.shared.acquire_read();
        let id = guard.borrow().id().clone();
        guard.release_read();
        id
    }

    /// Whether this device and the other have the same identifier. Each is
    /// locked only for as long as the comparison takes.
    pub fn same_id(&self, other: &MutexMemory) -> (same: bool)
        ensures
            same == (self@.id == other@.id),
    {
        let mine = self.shared.acquire_read();
        let theirs = other.shared.acquire_read();
        let same = *mine.borrow().id() == *theirs.borrow().id();
        theirs.release_read();
        mine.release_read();
        same
    }

    /// The granularity of a resize, in bytes.
    pub fn block_size(&self) -> (block_size: u64)
        ensures
            block_size == self@.block_size,
    {
        let guard = self.shared.acquire_read();
        let block_size = guard.borrow().block_size();
        guard.release_read();
        block_size
    }

    /// The NUMA node that the device asks its memory from, if any.
    pub fn node_id(&self) -> (node_id: Option<u16>)
        ensures
            node_id == self@.node_id,
    {
        let guard = self.shared.acquire_read();
        let node_id = guard.borrow().node_id();
        guard.release_read();
        node_id
    }

    /// The capacity reserved for the device, in bytes.
    pub fn region_size(&self) -> (region_size: u64)
        ensures
            region_size == self@.region_size,
    {
        let guard = self.shared.acquire_read();
        let region_size = guard.borrow().region_size();
        guard.release_read();
        region_size
    }

    /// The size exposed to the guest at the moment of the call. Another
    /// holder may change it at any time, so only its bound is known.
    pub fn requested_size(&self) -> (requested_size: u64)
        ensures
            requested_size <= self@.region_size,
    {
        let guard = self.shared.acquire_read();
        let requested_size = guard.borrow().requested_size();
        guard.release_read();
        requested_size
    }

    /// Changes the size exposed to the guest, for every holder, unless it
    /// exceeds the region.
    pub fn set_requested_size(&self, requested_size: u64) -> (done: Result<(), MemoryError>)
        ensures
            requested_size <= self@.region_size ==> done is Ok,
            requested_size > self@.region_size ==> done == Err::<(), MemoryError>(
                MemoryError::RequestedSizeTooLarge,
            ),
    {
        let (mut memory, guard) = self.shared.acquire_write();
        let done = memory.set_requested_size(requested_size);
        proof {
            use_type_invariant(&memory);
        }
        guard.release_write(memory);
        done
    }
}

} // verus!
