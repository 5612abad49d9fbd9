//! What holds of every registry, stated over the devices that it lists.

use crate::builder::{add_outcome, ids_of, insert_outcome, inserted, MemoryBuilder};
use crate::config::MemoryDeviceConfig;
use crate::device::{block_size_fits, Descriptor};
use crate::error::{MemoryConfigError, MemoryError};
use crate::handle::MutexMemory;
use std::slice::Iter;
use vstd::prelude::*;
use vstd::std_specs::iter::IteratorSpec;

verus! {

/// The devices of a registry after the configurations were inserted one after
/// the other, the first of the sequence first.
pub open spec fn inserted_all(devices: Seq<Descriptor>, cfgs: Seq<MemoryDeviceConfig>) -> Seq<
    Descriptor,
>
    decreases cfgs.len(),
{
    if cfgs.len() == 0 {
        devices
    } else {
        inserted(inserted_all(devices, cfgs.drop_last()), cfgs.last())
    }
}

/// The descriptors that a sequence of configurations asks for, in its order.
pub open spec fn asked_for(cfgs: Seq<MemoryDeviceConfig>) -> Seq<Descriptor> {
    cfgs.map_values(|cfg: MemoryDeviceConfig| cfg.descriptor())
}

/// Of two configurations with the same identifier and layouts that a device
/// can have, an empty registry accepts the first and then refuses the second
/// because the identifier is taken; one device is registered afterwards.
pub proof fn lemma_second_of_same_id_is_refused(
    first: MemoryDeviceConfig,
    second: MemoryDeviceConfig,
)
    requires
        first.id@ == second.id@,
        first.creation_error() is None,
        second.creation_error() is None,
    ensures
        insert_outcome(Seq::empty(), first) is Ok,
        insert_outcome(inserted(Seq::empty(), first), second) == Err::<(), MemoryConfigError>(
            MemoryConfigError::DeviceWithThisIdExists,
        ),
        inserted(inserted(Seq::empty(), first), second).len() == 1,
{
    let none = Seq::<Descriptor>::empty();
    assert(!ids_of(none).contains(first.id@));
    let one = inserted(none, first);
    assert(one == none.push(first.descriptor()));
    assert(ids_of(one)[0] == second.id@);
}

/// A configuration whose block size does not fit its region is refused as one
/// that no device can be created from, whatever the registry holds. The
/// registry stays as it was, so it answers every later insertion as it would
/// have answered it before.
pub proof fn lemma_refused_layout_changes_nothing(
    devices: Seq<Descriptor>,
    broken: MemoryDeviceConfig,
    next: MemoryDeviceConfig,
)
    requires
        !block_size_fits(broken.block_size, broken.region_size),
    ensures
        insert_outcome(devices, broken) == Err::<(), MemoryConfigError>(
            MemoryConfigError::CreateFailure(MemoryError::IncompatibleBlockSize),
        ),
        inserted(devices, broken) == devices,
        insert_outcome(inserted(devices, broken), next) == insert_outcome(devices, next),
        next.creation_error() is None && !ids_of(devices).contains(next.id@) ==> insert_outcome(
            inserted(devices, broken),
            next,
        ) is Ok,
{
}

/// An insertion never moves or drops a device that is registered: the devices
/// from before are the first ones after, and an accepted device is the last.
pub proof fn lemma_insert_appends(devices: Seq<Descriptor>, cfg: MemoryDeviceConfig)
    ensures
        devices.is_prefix_of(inserted(devices, cfg)),
        insert_outcome(devices, cfg) is Ok ==> inserted(devices, cfg) == devices.push(
            cfg.descriptor(),
        ),
{
}

/// An insertion keeps the identifiers distinct.
pub proof fn lemma_insert_keeps_ids_distinct(devices: Seq<Descriptor>, cfg: MemoryDeviceConfig)
    requires
        ids_of(devices).no_duplicates(),
    ensures
        ids_of(inserted(devices, cfg)).no_duplicates(),
{
    if insert_outcome(devices, cfg) is Ok {
        assert(ids_of(inserted(devices, cfg)) =~= ids_of(devices).push(cfg.id@));
    }
}

/// Insertion order is kept: configurations with layouts that a device can
/// have and pairwise distinct identifiers, inserted into an empty registry one
/// after the other, are all accepted and stand in the registry in the order
/// in which they were inserted.
pub proof fn lemma_insertion_order(cfgs: Seq<MemoryDeviceConfig>)
    requires
        forall|i: int| 0 <= i < cfgs.len() ==> (#[trigger] cfgs[i]).creation_error() is None,
        forall|i: int, j: int| 0 <= i < j < cfgs.len() ==> cfgs[i].id@ != cfgs[j].id@,
    ensures
        inserted_all(Seq::empty(), cfgs) == asked_for(cfgs),
        forall|i: int|
            0 <= i < cfgs.len() ==> insert_outcome(
                inserted_all(Seq::empty(), cfgs.take(i)),
                #[trigger] cfgs[i],
            ) is Ok,
    decreases cfgs.len(),
{
    if cfgs.len() == 0 {
        assert(inserted_all(Seq::empty(), cfgs) =~= asked_for(cfgs));
    } else {
        let front = cfgs.drop_last();
        let last = cfgs.last();
        lemma_insertion_order(front);
        let before = inserted_all(Seq::empty(), front);
        assert(before == asked_for(front));
        assert(!ids_of(before).contains(last.id@)) by {
            if ids_of(before).contains(last.id@) {
                let k = choose|k: int| 0 <= k < ids_of(before).len() && ids_of(before)[k] == last.id@;
                assert(ids_of(before)[k] == front[k].id@);
                assert(front[k] == cfgs[k]);
            }
        }
        assert(insert_outcome(before, last) is Ok);
        assert(inserted_all(Seq::empty(), cfgs) =~= asked_for(cfgs));
        assert forall|i: int| 0 <= i < cfgs.len() implies insert_outcome(
            inserted_all(Seq::empty(), cfgs.take(i)),
            #[trigger] cfgs[i],
        ) is Ok by {
            if i < front.len() {
                assert(cfgs.take(i) =~= front.take(i));
                assert(cfgs[i] == front[i]);
            } else {
                assert(cfgs.take(i) =~= front);
            }
        }
    }
}

/// A node id of zero in a configuration gives a device that asks for no node;
/// any other node id gives a device that asks for the node of that number.
pub proof fn lemma_zero_node_id_means_no_node(
    cfg: MemoryDeviceConfig,
    built: Result<MutexMemory, MemoryConfigError>,
)
    requires
        call_ensures(MemoryBuilder::build, (cfg,), built),
        built is Ok,
    ensures
        cfg.node_id == 0 ==> built->Ok_0@.node_id is None,
        cfg.node_id != 0 ==> built->Ok_0@.node_id == Some(cfg.node_id),
{
}

/// The traversal of a registry that was just created is empty: its first
/// step finds nothing.
pub proof fn lemma_new_registry_has_empty_traversal(
    builder: MemoryBuilder,
    handles: Iter<'_, MutexMemory>,
)
    requires
        call_ensures(MemoryBuilder::new, (), builder),
        call_ensures(MemoryBuilder::iter, (&builder,), handles),
    ensures
        handles.remaining() == Seq::<&MutexMemory>::empty(),
{
    assert(handles.remaining() =~= Seq::<&MutexMemory>::empty());
}

/// Adding a handle answers by the identifiers alone: a device is refused
/// exactly when its identifier is among those registered.
pub proof fn lemma_add_refuses_taken_ids_only(devices: Seq<Descriptor>, id: Seq<char>)
    ensures
        add_outcome(devices, id) is Err <==> exists|i: int|
            0 <= i < devices.len() && (#[trigger] devices[i]).id == id,
{
    if add_outcome(devices, id) is Err {
        let k = choose|k: int| 0 <= k < ids_of(devices).len() && ids_of(devices)[k] == id;
        assert(devices[k].id == id);
    }
    if exists|i: int| 0 <= i < devices.len() && (#[trigger] devices[i]).id == id {
        let k = choose|k: int| 0 <= k < devices.len() && (#[trigger] devices[k]).id == id;
        assert(ids_of(devices)[k] == id);
    }
}

} // verus!
