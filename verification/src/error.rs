//! The closed set of failures that memory-device operations report.

use vstd::prelude::*;

verus! {

/// Why a memory device could not be constructed or resized.
#[derive(Clone, Copy, Debug, PartialEq, Eq, Structural)]
pub enum MemoryError {
    /// The block size is zero or does not divide the region size.
    IncompatibleBlockSize,
    /// The requested size exceeds the region size.
    RequestedSizeTooLarge,
}

/// Errors associated with the operations allowed on the memory.
#[derive(Clone, Copy, Debug, PartialEq, Eq, Structural)]
pub enum MemoryConfigError {
    /// The user made a request on an inexistent memory device.
    DeviceNotFound,
    /// Device not activated yet.
    DeviceNotActive,
    /// There already exists a device with this id.
    DeviceWithThisIdExists,
    /// Failed to create a memory device.
    CreateFailure(MemoryError),
}

} // verus!
