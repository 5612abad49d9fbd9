use vmm_memory::{Memory, MemoryDeviceConfig, MemoryError, MemoryUpdateConfig, MutexMemory};

const MIB: u64 = 1 << 20;

fn dimm(id: &str) -> Memory {
    Memory::new(2 * MIB, Some(1), 128 * MIB, 0, String::from(id)).unwrap()
}

#[test]
fn new_device_keeps_its_arguments() {
    let device = Memory::new(2 * MIB, Some(4), 64 * MIB, 6 * MIB, String::from("dimm0")).unwrap();
    assert_eq!(device.id(), "dimm0");
    assert_eq!(device.block_size(), 2 * MIB);
    assert_eq!(device.node_id(), Some(4));
    assert_eq!(device.region_size(), 64 * MIB);
    assert_eq!(device.requested_size(), 6 * MIB);
}

#[test]
fn new_device_without_node() {
    let device = Memory::new(1, None, 0, 0, String::new()).unwrap();
    assert_eq!(device.id(), "");
    assert_eq!(device.node_id(), None);
    assert_eq!(device.region_size(), 0);
}

#[test]
fn zero_block_size_is_refused() {
    let made = Memory::new(0, None, 64 * MIB, 0, String::from("d"));
    assert_eq!(made.err(), Some(MemoryError::IncompatibleBlockSize));
    let empty = Memory::new(0, None, 0, 0, String::from("d"));
    assert_eq!(empty.err(), Some(MemoryError::IncompatibleBlockSize));
}

#[test]
fn block_size_must_divide_region_size() {
    let made = Memory::new(3, None, 10, 0, String::from("d"));
    assert_eq!(made.err(), Some(MemoryError::IncompatibleBlockSize));
    let larger = Memory::new(16, None, 8, 0, String::from("d"));
    assert_eq!(larger.err(), Some(MemoryError::IncompatibleBlockSize));
    assert!(Memory::new(5, None, 10, 0, String::from("d")).is_ok());
    assert!(Memory::new(10, None, 10, 0, String::from("d")).is_ok());
    assert!(Memory::new(u64::MAX, None, u64::MAX, 0, String::from("d")).is_ok());
}

#[test]
fn requested_size_is_bounded_by_region_size() {
    assert!(Memory::new(2, None, 10, 10, String::from("d")).is_ok());
    let made = Memory::new(2, None, 10, 11, String::from("d"));
    assert_eq!(made.err(), Some(MemoryError::RequestedSizeTooLarge));
}

#[test]
fn block_size_error_comes_first() {
    let made = Memory::new(3, None, 10, 11, String::from("d"));
    assert_eq!(made.err(), Some(MemoryError::IncompatibleBlockSize));
}

#[test]
fn set_requested_size_within_region() {
    let mut device = dimm("d");
    assert_eq!(device.set_requested_size(16 * MIB), Ok(()));
    assert_eq!(device.requested_size(), 16 * MIB);
    assert_eq!(device.set_requested_size(128 * MIB), Ok(()));
    assert_eq!(device.requested_size(), 128 * MIB);
    assert_eq!(device.set_requested_size(0), Ok(()));
    assert_eq!(device.requested_size(), 0);
}

#[test]
fn set_requested_size_beyond_region_changes_nothing() {
    let mut device = dimm("d");
    assert_eq!(device.set_requested_size(4 * MIB), Ok(()));
    assert_eq!(
        device.set_requested_size(128 * MIB + 1),
        Err(MemoryError::RequestedSizeTooLarge)
    );
    assert_eq!(device.requested_size(), 4 * MIB);
    assert_eq!(device.id(), "d");
    assert_eq!(device.region_size(), 128 * MIB);
}

#[test]
fn handle_reports_the_device() {
    let handle = MutexMemory::new(dimm("dimm7"));
    assert_eq!(handle.id(), "dimm7");
    assert_eq!(handle.block_size(), 2 * MIB);
    assert_eq!(handle.node_id(), Some(1));
    assert_eq!(handle.region_size(), 128 * MIB);
    assert_eq!(handle.requested_size(), 0);
}

#[test]
fn handle_compares_identifiers() {
    let a = MutexMemory::new(dimm("a"));
    let b = MutexMemory::new(dimm("b"));
    let other_a = MutexMemory::new(Memory::new(1, None, 1, 1, String::from("a")).unwrap());
    assert!(a.same_id(&a));
    assert!(a.same_id(&other_a));
    assert!(other_a.same_id(&a));
    assert!(!a.same_id(&b));
    assert!(!b.same_id(&a));
}

#[test]
fn cloned_handle_is_the_same_device() {
    let handle = MutexMemory::new(dimm("shared"));
    let copy = handle.clone();
    assert_eq!(copy.id(), "shared");
    assert_eq!(handle.set_requested_size(8 * MIB), Ok(()));
    assert_eq!(copy.requested_size(), 8 * MIB);
    assert_eq!(copy.set_requested_size(2 * MIB), Ok(()));
    assert_eq!(handle.requested_size(), 2 * MIB);
}

#[test]
fn handles_of_equal_devices_are_apart() {
    let one = MutexMemory::new(dimm("twin"));
    let two = MutexMemory::new(dimm("twin"));
    assert_eq!(one.set_requested_size(8 * MIB), Ok(()));
    assert_eq!(two.requested_size(), 0);
}

#[test]
fn handle_refuses_a_size_beyond_the_region() {
    let handle = MutexMemory::new(dimm("d"));
    assert_eq!(handle.set_requested_size(6 * MIB), Ok(()));
    assert_eq!(
        handle.set_requested_size(u64::MAX),
        Err(MemoryError::RequestedSizeTooLarge)
    );
    assert_eq!(handle.requested_size(), 6 * MIB);
}

#[test]
fn update_is_applied_by_its_requested_size() {
    let handle = MutexMemory::new(dimm("d"));
    let update = MemoryUpdateConfig {
        requested_size: 10 * MIB,
    };
    assert_eq!(handle.set_requested_size(update.requested_size), Ok(()));
    assert_eq!(handle.requested_size(), 10 * MIB);
    assert_eq!(update, update.clone());
}

#[test]
fn default_config_is_all_zero() {
    let cfg = MemoryDeviceConfig::default();
    assert_eq!(cfg.id, "");
    assert_eq!(cfg.block_size, 0);
    assert_eq!(cfg.node_id, 0);
    assert_eq!(cfg.region_size, 0);
    assert_eq!(cfg.requested_size, 0);
}

#[test]
fn config_clone_is_equal() {
    let cfg = MemoryDeviceConfig {
        id: String::from("dimm0"),
        block_size: 2 * MIB,
        node_id: 1,
        region_size: 64 * MIB,
        requested_size: 4 * MIB,
    };
    let copy = cfg.clone();
    assert!(cfg == copy);
    assert_eq!(copy.id, "dimm0");
    assert_eq!(copy.requested_size, 4 * MIB);
}

#[test]
fn config_equality_looks_at_every_field() {
    let cfg = MemoryDeviceConfig {
        id: String::from("dimm0"),
        block_size: 2 * MIB,
        node_id: 1,
        region_size: 64 * MIB,
        requested_size: 4 * MIB,
    };
    let mut other = cfg.clone();
    other.id = String::from("dimm1");
    assert!(cfg != other);
    let mut other = cfg.clone();
    other.block_size = MIB;
    assert!(cfg != other);
    let mut other = cfg.clone();
    other.node_id = 0;
    assert!(cfg != other);
    let mut other = cfg.clone();
    other.region_size = 32 * MIB;
    assert!(cfg != other);
    let mut other = cfg.clone();
    other.requested_size = 0;
    assert!(cfg != other);
}

fn shareable<T: Send + Sync>(_: &T) {}

#[test]
fn handle_can_be_given_to_another_thread() {
    let handle = MutexMemory::new(dimm("d"));
    shareable(&handle);
}
