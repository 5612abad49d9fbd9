//! The ordered registry of the memory devices attached to one machine.

use crate::config::MemoryDeviceConfig;
use crate::device::{Descriptor, Memory};
use crate::error::MemoryConfigError;
use crate::handle::MutexMemory;
use std::slice::Iter;
use vstd::prelude::*;
use vstd::std_specs::iter::IteratorSpec;
use vstd::std_specs::slice::into_iter_elts;

verus! {

/// The descriptors of a sequence of handles, in the same order.
pub open spec fn descriptors_of(handles: Seq<MutexMemory>) -> Seq<Descriptor> {
    handles.map_values(|h: MutexMemory| h@)
}

/// The identifiers in a sequence of descriptors, in the same order.
pub open spec fn ids_of(devices: Seq<Descriptor>) -> Seq<Seq<char>> {
    devices.map_values(|d: Descriptor| d.id)
}

/// What adding a device with the given identifier to a registry of the given
/// devices answers.
pub open spec fn add_outcome(devices: Seq<Descriptor>, id: Seq<char>) -> Result<
    (),
    MemoryConfigError,
> {
    if ids_of(devices).contains(id) {
        Err(MemoryConfigError::DeviceWithThisIdExists)
    } else {
        Ok(())
    }
}

/// What inserting a configuration into a registry of the given devices
/// answers: a layout that is refused comes first, a taken identifier second.
pub open spec fn insert_outcome(devices: Seq<Descriptor>, cfg: MemoryDeviceConfig) -> Result<
    (),
    MemoryConfigError,
> {
    match cfg.creation_error() {
        Some(e) => Err(MemoryConfigError::CreateFailure(e)),
        None => add_outcome(devices, cfg.id@),
    }
}

/// The devices of a registry after a configuration was inserted: one more at
/// the end where the insertion succeeds, the same as before where it fails.
pub open spec fn inserted(devices: Seq<Descriptor>, cfg: MemoryDeviceConfig) -> Seq<Descriptor> {
    if insert_outcome(devices, cfg) is Ok {
        devices.push(cfg.descriptor())
    } else {
        devices
    }
}

/// A builder for memory devices from their configurations, and the registry
/// of those that it has accepted.
///
/// The view is the sequence of handles in the order in which they were
/// accepted. No two of them have the same identifier.
pub struct MemoryBuilder {
    memory_devices: Vec<MutexMemory>,
}

impl View for MemoryBuilder {
    type V = Seq<MutexMemory>;

    closed spec fn view(&self) -> Seq<MutexMemory> {
        self.memory_devices@
    }
}

impl Default for MemoryBuilder {
    fn default() -> (builder: MemoryBuilder)
        ensures
            builder@ == Seq::<MutexMemory>::empty(),
    {
        MemoryBuilder { memory_devices: Vec::new() }
    }
}

impl MemoryBuilder {
    /// The fixed parts of the registered devices, in the order of registration.
    pub open spec fn devices(&self) -> Seq<Descriptor> {
        descriptors_of(self@)
    }

    /// The identifiers of the registered devices, in the order of registration.
    pub open spec fn ids(&self) -> Seq<Seq<char>> {
        ids_of(self.devices())
    }

    /// Holds of every registry: no identifier is registered twice.
    #[verifier::type_invariant]
    spec fn ids_are_distinct(&self) -> bool {
        ids_of(descriptors_of(self.memory_devices@)).no_duplicates()
    }

    /// Creates an empty registry.
    pub fn new() -> (builder: MemoryBuilder)
        ensures
            builder@ == Seq::<MutexMemory>::empty(),
    {
        MemoryBuilder { memory_devices: Vec::new() }
    }

    /// Creates a memory device from the configuration and puts it behind a
    /// lock. A node id of zero asks for no node.
    pub fn build(cfg: MemoryDeviceConfig) -> (built: Result<MutexMemory, MemoryConfigError>)
        ensures
            (match cfg.creation_error() {
                Some(e) => built matches Err(err) && err == MemoryConfigError::CreateFailure(e),
                None => built matches Ok(handle) && handle@ == cfg.descriptor(),
            }),
    {
        let node_id = if cfg.node_id != 0 {
            Some(cfg.node_id)
        } else {
            None
        };
        match Memory::new(cfg.block_size, node_id, cfg.region_size, cfg.requested_size, cfg.id) {
            Ok(memory) => Ok(MutexMemory::new(memory)),
            Err(e) => Err(MemoryConfigError::CreateFailure(e)),
        }
    }

    /// Inserts the memory device created from the configuration.
    pub fn insert(&mut self, cfg: MemoryDeviceConfig) -> (done: Result<(), MemoryConfigError>)
        ensures
            done == insert_outcome(old(self).devices(), cfg),
            final(self).devices() == inserted(old(self).devices(), cfg),
            final(self).ids().no_duplicates(),
            done is Err ==> final(self)@ == old(self)@,
            done is Ok ==> final(self)@.len() == old(self)@.len() + 1,
            done is Ok ==> final(self)@.drop_last() == old(self)@,
            done is Ok ==> final(self)@.last()@ == cfg.descriptor(),
    {
        match Self::build(cfg) {
            Ok(memory) => {
                let done = self.add_device(memory);
                proof {
                    if done is Ok {
                        assert(self@.drop_last() =~= old(self)@);
                        assert(self.devices() =~= old(self).devices().push(memory@));
                    }
                }
                done
            },
            Err(e) => {
                proof {
                    use_type_invariant(&*self);
                }
                Err(e)
            },
        }
    }

    /// Inserts an existing memory device, unless a registered device has its
    /// identifier already.
    pub fn add_device(&mut self, memory: MutexMemory) -> (done: Result<(), MemoryConfigError>)
        ensures
            done == add_outcome(old(self).devices(), memory@.id),
            done is Ok ==> final(self)@ == old(self)@.push(memory),
            done is Err ==> final(self)@ == old(self)@,
            final(self).ids().no_duplicates(),
    {
        proof {
            use_type_invariant(&*self);
        }
        let n: usize = self.memory_devices.len();
        let mut i: usize = 0;
        while i < n
            invariant
                n == self.memory_devices.len(),
                self.memory_devices == old(self).memory_devices,
                i <= n,
                self.ids().no_duplicates(),
                forall|j: int| 0 <= j < i ==> (#[trigger] self.ids()[j]) != memory@.id,
            decreases n - i,
        {
            if self.memory_devices[i].same_id(&memory) {
                assert(self.ids()[i as int] == memory@.id);
                return Err(MemoryConfigError::DeviceWithThisIdExists);
            }
            i += 1;
        }
        assert(!self.ids().contains(memory@.id));
        // The vector leaves the registry for the push, so that the registry
        // is whole at every step.
        let mut devices: Vec<MutexMemory> = Vec::new();
        std::mem::swap(&mut self.memory_devices, &mut devices);
        devices.push(memory);
        assert(ids_of(descriptors_of(devices@)) =~= old(self).ids().push(memory@.id));
        self.memory_devices = devices;
        Ok(())
    }

    /// A traversal of the handles for holders that change the devices. It
    /// keeps the registry to itself while it lasts; the devices change under
    /// their own locks, and the registry stays as it is.
    pub fn iter_mut(&mut self) -> (handles: Iter<'_, MutexMemory>)
        ensures
            *final(self) == *old(self),
            into_iter_elts(handles) == old(self)@,
            handles.remaining() == old(self)@.as_ref(),
            IteratorSpec::decrease(&handles) is Some,
            IteratorSpec::initial_value_relation(&handles, &handles),
            old(self).ids().no_duplicates(),
    {
        proof {
            use_type_invariant(&*self);
        }
        self.memory_devices.iter()
    }

    /// A traversal of the handles in the order of registration. Each call
    /// starts at the first.
    pub fn iter(&self) -> (handles: Iter<'_, MutexMemory>)
        ensures
            into_iter_elts(handles) == self@,
            handles.remaining() == self@.as_ref(),
            IteratorSpec::decrease(&handles) is Some,
            IteratorSpec::initial_value_relation(&handles, &handles),
            self.ids().no_duplicates(),
    {
        proof {
            use_type_invariant(self);
        }
        self.memory_devices.iter()
    }
}

} // verus!
