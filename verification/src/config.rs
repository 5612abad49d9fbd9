//! Request-scoped descriptions of a memory device to create or to resize.

use crate::device::{layout_error, node_hint, Descriptor};
use crate::error::MemoryError;
use vstd::prelude::*;

verus! {

/// The strongly typed body of a request that creates a memory device.
///
/// The fields are taken as they come; whether they describe a device that can
/// exist is decided when the device is constructed.
#[derive(Debug)]
pub struct MemoryDeviceConfig {
    /// ID of the device.
    pub id: String,
    /// Block size in bytes.
    pub block_size: u64,
    /// Node id if any; zero stands for none.
    pub node_id: u16,
    /// Region size in bytes.
    pub region_size: u64,
    /// Requested size in bytes.
    pub requested_size: u64,
}

impl MemoryDeviceConfig {
    /// The fixed properties of the device that this configuration asks for.
    pub open spec fn descriptor(&self) -> Descriptor {
        Descriptor {
            id: self.id@,
            block_size: self.block_size,
            node_id: node_hint(self.node_id),
            region_size: self.region_size,
        }
    }

    /// The reason for which no device can be constructed from this
    /// configuration, if there is one.
    pub open spec fn creation_error(&self) -> Option<MemoryError> {
        layout_error(self.block_size, self.region_size, self.requested_size)
    }
}

impl Default for MemoryDeviceConfig {
    fn default() -> (cfg: Self)
        ensures
            cfg.id@ == Seq::<char>::empty(),
            cfg.block_size == 0,
            cfg.node_id == 0,
            cfg.region_size == 0,
            cfg.requested_size == 0,
    {
        MemoryDeviceConfig {
            id: String::new(),
            block_size: 0,
            node_id: 0,
            region_size: 0,
            requested_size: 0,
        }
    }
}

impl Clone for MemoryDeviceConfig {
    fn clone(&self) -> (cfg: Self)
        ensures
            cfg == *self,
    {
        MemoryDeviceConfig {
            id: self.id.clone(),
            block_size: self.block_size,
            node_id: self.node_id,
            region_size: self.region_size,
            requested_size: self.requested_size,
        }
    }
}

impl PartialEq for MemoryDeviceConfig {
    fn eq(&self, other: &Self) -> (equal: bool) {
        self.id == other.id && self.block_size == other.block_size && self.node_id == other.node_id
            && self.region_size == other.region_size && self.requested_size
            == other.requested_size
    }
}

impl Eq for MemoryDeviceConfig {}

impl vstd::std_specs::cmp::PartialEqSpecImpl for MemoryDeviceConfig {
    open spec fn obeys_eq_spec() -> bool {
        true
    }

    open spec fn eq_spec(&self, other: &Self) -> bool {
        &&& self.id@ == other.id@
        &&& self.block_size == other.block_size
        &&& self.node_id == other.node_id
        &&& self.region_size == other.region_size
        &&& self.requested_size == other.requested_size
    }
}

/// A resize intent for a memory device that is already registered.
///
/// Finding the device that it is meant for is left to the caller.
#[derive(Clone, Copy, Debug, PartialEq, Eq, Structural)]
pub struct MemoryUpdateConfig {
    /// Requested size in bytes.
    pub requested_size: u64,
}

} // verus!
