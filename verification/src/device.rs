//! The memory device: its layout rules and its mathematical value.

use crate::error::MemoryError;
use vstd::prelude::*;

verus! {

/// What a device keeps for its whole life: everything but the size that the
/// guest currently sees.
pub struct Descriptor {
    /// The identifier by which the device is told from the others.
    pub id: Seq<char>,
    /// The granularity of a resize, in bytes.
    pub block_size: u64,
    /// The NUMA node that the backing memory is asked from, if any.
    pub node_id: Option<u16>,
    /// The capacity reserved for the device, in bytes.
    pub region_size: u64,
}

/// The mathematical value of a memory device.
pub struct MemoryView {
    /// The part that never changes.
    pub fixed: Descriptor,
    /// The size currently exposed to the guest, in bytes.
    pub requested_size: u64,
}

/// A block size fits a region when the region is a whole number of blocks.
pub open spec fn block_size_fits(block_size: u64, region_size: u64) -> bool {
    block_size != 0 && region_size % block_size == 0
}

/// The first reason, if any, for which no device has this layout.
pub open spec fn layout_error(block_size: u64, region_size: u64, requested_size: u64) -> Option<
    MemoryError,
> {
    if !block_size_fits(block_size, region_size) {
        Some(MemoryError::IncompatibleBlockSize)
    } else if requested_size > region_size {
        Some(MemoryError::RequestedSizeTooLarge)
    } else {
        None
    }
}

/// The node that a request's node id asks for: zero asks for none, any other
/// value for the node of that number.
pub open spec fn node_hint(node_id: u16) -> Option<u16> {
    if node_id == 0 {
        None
    } else {
        Some(node_id)
    }
}

impl MemoryView {
    /// The layout is one that a device can have.
    pub open spec fn valid(self) -> bool {
        layout_error(self.fixed.block_size, self.fixed.region_size, self.requested_size) is None
    }
}

/// A hot-pluggable block of guest memory.
pub struct Memory {
    id: String,
    block_size: u64,
    node_id: Option<u16>,
    region_size: u64,
    requested_size: u64,
}

impl View for Memory {
    type V = MemoryView;

    closed spec fn view(&self) -> MemoryView {
        MemoryView {
            fixed: Descriptor {
                id: self.id@,
                block_size: self.block_size,
                node_id: self.node_id,
                region_size: self.region_size,
            },
            requested_size: self.requested_size,
        }
    }
}

impl Memory {
    /// Holds of every device: its layout is one that a device can have.
    #[verifier::type_invariant]
    pub open spec fn well_formed(&self) -> bool {
        self@.valid()
    }

    /// Constructs a device, or says why its layout is refused.
    pub fn new(
        block_size: u64,
        node_id: Option<u16>,
        region_size: u64,
        requested_size: u64,
        id: String,
    ) -> (made: Result<Memory, MemoryError>)
        ensures
            (match layout_error(block_size, region_size, requested_size) {
                Some(e) => made == Err::<Memory, MemoryError>(e),
                None => made is Ok && made->Ok_0@ == (MemoryView {
                    fixed: Descriptor { id: id@, block_size, node_id, region_size },
                    requested_size,
                }),
            }),
    {
        if block_size == 0 || region_size % block_size != 0 {
            return Err(MemoryError::IncompatibleBlockSize);
        }
        if requested_size > region_size {
            return Err(MemoryError::RequestedSizeTooLarge);
        }
        Ok(Memory { id, block_size, node_id, region_size, requested_size })
    }

    /// The identifier of the device.
    pub fn id(&self) -> (id: &String)
        ensures
            id@ == self@.fixed.id,
    {
        &self.id
    }

    /// The granularity of a resize, in bytes.
    pub fn block_size(&self) -> (block_size: u64)
        ensures
            block_size == self@.fixed.block_size,
            block_size_fits(block_size, self@.fixed.region_size),
    {
        proof {
            use_type_invariant(self);
        }
        self.block_size
    }

    /// The NUMA node that the device asks its memory from, if any.
    pub fn node_id(&self) -> (node_id: Option<u16>)
        ensures
            node_id == self@.fixed.node_id,
    {
        self.node_id
    }

    /// The capacity reserved for the device, in bytes.
    pub fn region_size(&self) -> (region_size: u64)
        ensures
            region_size == self@.fixed.region_size,
    {
        self.region_size
    }

    /// The size currently exposed to the guest, in bytes.
    pub fn requested_size(&self) -> (requested_size: u64)
        ensures
            requested_size == self@.requested_size,
            requested_size <= self@.fixed.region_size,
    {
        proof {
            use_type_invariant(self);
        }
        self.requested_size
    }

    /// Changes the size exposed to the guest, unless it exceeds the region.
    pub fn set_requested_size(&mut self, requested_size: u64) -> (done: Result<(), MemoryError>)
        ensures
            final(self)@.fixed == old(self)@.fixed,
            requested_size <= old(self)@.fixed.region_size ==> done is Ok,
            requested_size <= old(self)@.fixed.region_size ==> final(self)@.requested_size
                == requested_size,
            requested_size > old(self)@.fixed.region_size ==> done == Err::<(), MemoryError>(
                MemoryError::RequestedSizeTooLarge,
            ),
            requested_size > old(self)@.fixed.region_size ==> final(self)@ == old(self)@,
    {
        proof {
            use_type_invariant(&*self);
        }
        if requested_size > self.region_size {
            return Err(MemoryError::RequestedSizeTooLarge);
        }
        self.requested_size = requested_size;
        Ok(())
    }
}

} // verus!
