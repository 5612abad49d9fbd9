//! Configuration and registry of hot-pluggable guest memory devices.
//!
//! A [`MemoryDeviceConfig`] describes a device to create. A [`MemoryBuilder`]
//! constructs the device, puts it behind a lock of its own, and keeps the
//! handles in the order in which they were accepted, no two with the same
//! identifier.

pub mod builder;
pub mod config;
pub mod device;
pub mod error;
pub mod handle;
pub mod lemmas;

pub use builder::MemoryBuilder;
pub use config::{MemoryDeviceConfig, MemoryUpdateConfig};
pub use device::Memory;
pub use error::{MemoryConfigError, MemoryError};
pub use handle::MutexMemory;
