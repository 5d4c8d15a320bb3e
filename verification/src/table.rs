//! The resource table of `wasmtime`, in which the guest's devices, handles and transfers
//! live beside the resources of other hosts.
use vstd::prelude::*;
use wasmtime::component::Resource;
use wasmtime_wasi::ResourceTable;

use crate::device::{UsbDevice, UsbDeviceHandle};
use crate::transfers::UsbTransfer;

verus! {

/// The table itself, carried through as it is.
#[verifier::external_type_specification]
#[verifier::external_body]
pub struct ExResourceTable(ResourceTable);

/// What an occupied slot of the table holds.
pub enum Entry {
    Device(UsbDevice),
    Handle(UsbDeviceHandle),
    Transfer(UsbTransfer),
    /// A resource of some other host.
    Foreign,
}

/// The occupied slots of the table.
pub uninterp spec fn table_entries(table: ResourceTable) -> Map<u32, Entry>;

/// The slots whose entries have children in the table.
pub uninterp spec fn table_parents(table: ResourceTable) -> Set<u32>;

/// The occupied slots whose entries are strays: they record a parent that is not in the table
/// or that does not list them among its children. `ResourceTable::add_child` leaves one behind
/// where it fails for want of the parent.
pub uninterp spec fn table_strays(table: ResourceTable) -> Set<u32>;

/// The number of slots that the table may have.
pub uninterp spec fn table_capacity(table: ResourceTable) -> nat;

/// Whether an entry has to find room in a table with these slots and this capacity.
pub open spec fn has_room(entries: Map<u32, Entry>, capacity: nat) -> bool {
    entries.dom().len() < capacity && entries.dom().len() <= u32::MAX
}

/// The device in slot `rep`, if there is one.
pub open spec fn device_at(entries: Map<u32, Entry>, rep: u32) -> Option<UsbDevice> {
    if entries.contains_key(rep) && entries[rep] is Device {
        Some(entries[rep]->Device_0)
    } else {
        None
    }
}

/// The device handle in slot `rep`, if there is one.
pub open spec fn handle_at(entries: Map<u32, Entry>, rep: u32) -> Option<UsbDeviceHandle> {
    if entries.contains_key(rep) && entries[rep] is Handle {
        Some(entries[rep]->Handle_0)
    } else {
        None
    }
}

/// The transfer in slot `rep`, if there is one.
pub open spec fn transfer_at(entries: Map<u32, Entry>, rep: u32) -> Option<UsbTransfer> {
    if entries.contains_key(rep) && entries[rep] is Transfer {
        Some(entries[rep]->Transfer_0)
    } else {
        None
    }
}

/// Whether the slots `after` are the slots `before` and, besides, the first devices of
/// `devices`, device `i` in slot `reps[i]`, which was free.
pub open spec fn devices_added(
    before: Map<u32, Entry>,
    after: Map<u32, Entry>,
    devices: Seq<UsbDevice>,
    reps: Seq<u32>,
) -> bool {
    &&& reps.len() <= devices.len()
    &&& reps.no_duplicates()
    &&& forall|i: int| 0 <= i < reps.len() ==> !before.contains_key(#[trigger] reps[i])
    &&& forall|i: int|
        0 <= i < reps.len() ==> after.contains_pair(#[trigger] reps[i], Entry::Device(devices[i]))
    &&& forall|rep: u32|
        before.contains_key(rep) ==> after.contains_key(rep) && #[trigger] after[rep] == before[rep]
    &&& after.dom() == before.dom().union(reps.to_set())
}

/// A type of this library that is kept in the table.
pub(crate) trait Stored: Sized + Send + 'static {
    /// The slot that holds `self`.
    spec fn entry(self) -> Entry;

    /// What is found in slot `rep`.
    spec fn at(entries: Map<u32, Entry>, rep: u32) -> Option<Self>;
}

impl Stored for UsbDevice {
    open spec fn entry(self) -> Entry {
        Entry::Device(self)
    }

    open spec fn at(entries: Map<u32, Entry>, rep: u32) -> Option<Self> {
        device_at(entries, rep)
    }
}

impl Stored for UsbDeviceHandle {
    open spec fn entry(self) -> Entry {
        Entry::Handle(self)
    }

    open spec fn at(entries: Map<u32, Entry>, rep: u32) -> Option<Self> {
        handle_at(entries, rep)
    }
}

impl Stored for UsbTransfer {
    open spec fn entry(self) -> Entry {
        Entry::Transfer(self)
    }

    open spec fn at(entries: Map<u32, Entry>, rep: u32) -> Option<Self> {
        transfer_at(entries, rep)
    }
}

/// `ResourceTable::new` makes a table without entries, and so without parents or strays.
pub assume_specification[ ResourceTable::new ]() -> (table: ResourceTable)
    ensures
        table_entries(table).dom() == Set::<u32>::empty(),
        table_parents(table) == Set::<u32>::empty(),
        table_strays(table) == Set::<u32>::empty(),
;

/// `ResourceTable::push` puts an entry into a slot that was free, without parent and children,
/// and gives the number of the slot. It gives up, and changes nothing, only where every slot is
/// occupied and there are as many as the capacity or as a slot number allow.
#[verifier::external_body]
pub(crate) fn push<T: Stored>(table: &mut ResourceTable, value: T) -> (slot: Option<u32>)
    ensures
        table_capacity(*final(table)) == table_capacity(*old(table)),
        table_parents(*final(table)) == table_parents(*old(table)),
        table_strays(*final(table)) == table_strays(*old(table)),
        match slot {
            Some(rep) => {
                &&& !table_entries(*old(table)).contains_key(rep)
                &&& !table_parents(*old(table)).contains(rep)
                &&& table_entries(*final(table)) == table_entries(*old(table)).insert(
                    rep,
                    value.entry(),
                )
            },
            None => {
                &&& !has_room(table_entries(*old(table)), table_capacity(*old(table)))
                &&& table_entries(*final(table)) == table_entries(*old(table))
            },
        },
{
    match table.push(value) {
        Ok(resource) => Some(resource.rep()),
        Err(_) => None,
    }
}

/// `ResourceTable::get` gives the entry of a slot, if the slot is occupied by an entry of
/// the type that was asked for.
#[verifier::external_body]
pub(crate) fn get<T: Stored>(table: &ResourceTable, rep: u32) -> (value: Option<&T>)
    ensures
        match value {
            Some(value) => T::at(table_entries(*table), rep) == Some(*value),
            None => T::at(table_entries(*table), rep) is None,
        },
{
    table.get(&Resource::<T>::new_own(rep)).ok()
}

/// `ResourceTable::get_mut` gives access to the entry of a slot, if the slot is occupied by
/// an entry of the type that was asked for. What is done to the entry is done in its slot.
#[verifier::external_body]
pub(crate) fn get_mut<T: Stored>(table: &mut ResourceTable, rep: u32) -> (value: Option<&mut T>)
    ensures
        table_capacity(*final(table)) == table_capacity(*old(table)),
        table_parents(*final(table)) == table_parents(*old(table)),
        table_strays(*final(table)) == table_strays(*old(table)),
        match value {
            Some(value) => {
                &&& T::at(table_entries(*old(table)), rep) == Some(*value)
                &&& table_entries(*final(table)) == table_entries(*old(table)).insert(
                    rep,
                    final(value).entry(),
                )
            },
            None => {
                &&& T::at(table_entries(*old(table)), rep) is None
                &&& table_entries(*final(table)) == table_entries(*old(table))
            },
        },
{
    table.get_mut(&Resource::<T>::new_own(rep)).ok()
}

/// `ResourceTable::delete` frees an occupied slot, unless its entry has children, and gives
/// the entry if it is of the type that was asked for. The slot may have been a child: then
/// another slot can lose its last child. A stray is left out: `delete` panics where it does not
/// find the entry among the children of the parent that the entry records. What is removed
/// makes no stray of another entry, since an entry with children stays.
#[verifier::external_body]
pub(crate) fn delete<T: Stored>(table: &mut ResourceTable, rep: u32) -> (value: Option<T>)
    requires
        !table_strays(*old(table)).contains(rep),
    ensures
        table_capacity(*final(table)) == table_capacity(*old(table)),
        table_parents(*final(table)).subset_of(table_parents(*old(table))),
        table_strays(*final(table)) == table_strays(*old(table)),
        table_entries(*final(table)) == if table_parents(*old(table)).contains(rep) {
            table_entries(*old(table))
        } else {
            table_entries(*old(table)).remove(rep)
        },
        match value {
            Some(value) => !table_parents(*old(table)).contains(rep) && T::at(
                table_entries(*old(table)),
                rep,
            ) == Some(value),
            None => table_parents(*old(table)).contains(rep) || T::at(
                table_entries(*old(table)),
                rep,
            ) is None,
        },
{
    table.delete(Resource::<T>::new_own(rep)).ok()
}

/// The slots of a table are finitely many.
pub(crate) proof fn lemma_slots_finite(entries: Map<u32, Entry>)
    ensures
        entries.dom().finite(),
{
    broadcast use {vstd::set_lib::full_set_properties, vstd::set_lib::lemma_set_subset_finite};

    assert(entries.dom().subset_of(Set::<u32>::full()));
}

/// Nothing added.
pub(crate) proof fn lemma_no_device_added(before: Map<u32, Entry>, devices: Seq<UsbDevice>)
    ensures
        devices_added(before, before, devices, Seq::empty()),
{
    assert(before.dom() =~= before.dom().union(Seq::<u32>::empty().to_set()));
}

/// One more device in a free slot.
pub(crate) proof fn lemma_device_added(
    before: Map<u32, Entry>,
    after: Map<u32, Entry>,
    devices: Seq<UsbDevice>,
    reps: Seq<u32>,
    rep: u32,
)
    requires
        devices_added(before, after, devices, reps),
        reps.len() < devices.len(),
        !after.contains_key(rep),
    ensures
        devices_added(
            before,
            after.insert(rep, Entry::Device(devices[reps.len() as int])),
            devices,
            reps.push(rep),
        ),
{
    let next = after.insert(rep, Entry::Device(devices[reps.len() as int]));
    let longer = reps.push(rep);
    assert forall|i: int| 0 <= i < reps.len() implies reps[i] != rep by {
        assert(after.contains_pair(reps[i], Entry::Device(devices[i])));
    }
    assert(longer.no_duplicates());
    assert(!before.contains_key(rep)) by {
        if before.contains_key(rep) {
            assert(after[rep] == before[rep]);
        }
    }
    assert forall|i: int| 0 <= i < longer.len() implies next.contains_pair(
        #[trigger] longer[i],
        Entry::Device(devices[i]),
    ) by {
        if i < reps.len() {
            assert(longer[i] == reps[i]);
            assert(after.contains_pair(reps[i], Entry::Device(devices[i])));
        }
    }
    assert forall|k: u32| before.contains_key(k) implies next.contains_key(k)
        && #[trigger] next[k] == before[k] by {
        assert(after[k] == before[k]);
    }
    assert(longer.to_set() =~= reps.to_set().insert(rep)) by {
        assert forall|k: u32| longer.contains(k) implies reps.contains(k) || k == rep by {}
        assert forall|k: u32| reps.contains(k) implies longer.contains(k) by {
            let i = choose|i: int| 0 <= i < reps.len() && reps[i] == k;
            assert(longer[i] == k);
        }
        assert(longer[reps.len() as int] == rep);
    }
    assert(next.dom() =~= before.dom().union(longer.to_set()));
}

/// Every device that was added takes one slot.
pub(crate) proof fn lemma_added_slots(
    before: Map<u32, Entry>,
    after: Map<u32, Entry>,
    devices: Seq<UsbDevice>,
    reps: Seq<u32>,
)
    requires
        devices_added(before, after, devices, reps),
    ensures
        after.dom().len() == before.dom().len() + reps.len(),
{
    lemma_slots_finite(before);
    reps.unique_seq_to_set();
    let added = reps.to_set();
    assert(before.dom().disjoint(added)) by {
        assert forall|k: u32| added.contains(k) implies !before.dom().contains(k) by {
            let i = choose|i: int| 0 <= i < reps.len() && reps[i] == k;
            assert(!before.contains_key(reps[i]));
        }
    }
    vstd::set_lib::lemma_set_disjoint_lens(before.dom(), added);
}

} // verus!
