//! Devices and device handles.
//!
//! A guest operation on a device has two halves. The first one works out the call to make
//! to libusb; the second one, named `.._reply`, turns what the call returned into the
//! answer to the guest. An operation on a handle that names no resource of the right kind
//! has no call to make, and the first half gives `None`.
use std::sync::atomic::AtomicBool;
use std::sync::Arc;

use vstd::prelude::*;

use crate::descriptors::{DeviceDescriptor, RawDeviceDescriptor};
use crate::errors::LibusbError;
use crate::numbers::{count_to_signed, to_byte};
use crate::table::{get, push, Entry};
use crate::usb::WasiUsbCtxView;

verus! {

/// A USB device, by the address that libusb knows it by.
#[derive(Debug, Clone, Copy, PartialEq, Eq, Structural)]
pub struct UsbDevice {
    pub device: usize,
}

/// An open USB device, by the address that libusb knows it by.
#[derive(Debug, Clone, Copy, PartialEq, Eq, Structural)]
pub struct UsbDeviceHandle {
    pub handle: usize,
}

/// The speed of a device.
#[derive(Debug, Clone, Copy, PartialEq, Eq, Structural)]
pub enum UsbSpeed {
    Unknown,
    Low,
    Full,
    High,
    Super,
    SuperPlus,
    SuperPlusX2,
}

impl UsbSpeed {
    /// The number that stands for this speed.
    pub open spec fn code(self) -> u8 {
        match self {
            UsbSpeed::Unknown => 0,
            UsbSpeed::Low => 1,
            UsbSpeed::Full => 2,
            UsbSpeed::High => 3,
            UsbSpeed::Super => 4,
            UsbSpeed::SuperPlus => 5,
            UsbSpeed::SuperPlusX2 => 6,
        }
    }

    /// The speed whose number is `value`; `Unknown` where no speed has it.
    pub open spec fn of_code(value: u8) -> UsbSpeed {
        if value == 1 {
            UsbSpeed::Low
        } else if value == 2 {
            UsbSpeed::Full
        } else if value == 3 {
            UsbSpeed::High
        } else if value == 4 {
            UsbSpeed::Super
        } else if value == 5 {
            UsbSpeed::SuperPlus
        } else if value == 6 {
            UsbSpeed::SuperPlusX2
        } else {
            UsbSpeed::Unknown
        }
    }

    /// The speed that a number of libusb stands for.
    pub fn from_raw(value: u8) -> (speed: Self)
        ensures
            speed == Self::of_code(value),
    {
        match value {
            0 => UsbSpeed::Unknown,
            1 => UsbSpeed::Low,
            2 => UsbSpeed::Full,
            3 => UsbSpeed::High,
            4 => UsbSpeed::Super,
            5 => UsbSpeed::SuperPlus,
            6 => UsbSpeed::SuperPlusX2,
            _ => UsbSpeed::Unknown,
        }
    }
}

/// Where a device is plugged in.
#[derive(Debug, Clone, Copy, PartialEq, Eq, Structural)]
pub struct DeviceLocation {
    pub bus_number: u8,
    pub device_address: u8,
    pub port_number: u8,
    pub speed: UsbSpeed,
}

/// What libusb says of one device of its list.
#[derive(Debug, Clone, Copy)]
pub struct DeviceProbe {
    /// The address of the device; zero where the list has a gap.
    pub device: usize,
    /// The status of reading the descriptor.
    pub status: i32,
    /// The descriptor, where it could be read.
    pub descriptor: RawDeviceDescriptor,
    pub bus_number: u8,
    pub device_address: u8,
    pub port_number: u8,
    pub speed: i32,
}

/// A device as the guest is told of it: its handle, its descriptor and its location.
pub type ListedDevice = (u32, DeviceDescriptor, DeviceLocation);

impl DeviceProbe {
    /// What the guest is told of this device, under handle `rep`.
    pub open spec fn listed(self, rep: u32) -> ListedDevice {
        (
            rep,
            DeviceDescriptor::of(self.descriptor),
            DeviceLocation {
                bus_number: self.bus_number,
                device_address: self.device_address,
                port_number: self.port_number,
                speed: UsbSpeed::of_code((self.speed as int % 256) as u8),
            },
        )
    }

    fn list_as(&self, rep: u32) -> (listed: ListedDevice)
        ensures
            listed == self.listed(rep),
    {
        let location = DeviceLocation {
            bus_number: self.bus_number,
            device_address: self.device_address,
            port_number: self.port_number,
            speed: UsbSpeed::from_raw(to_byte(self.speed)),
        };
        (rep, DeviceDescriptor::from_raw(&self.descriptor), location)
    }
}

/// The devices of a list that has no gaps any more.
pub open spec fn present(probes: Seq<DeviceProbe>) -> Seq<DeviceProbe>
    decreases probes.len(),
{
    if probes.len() == 0 {
        Seq::empty()
    } else if probes.last().device == 0 {
        present(probes.drop_last())
    } else {
        present(probes.drop_last()).push(probes.last())
    }
}

/// The addresses of `probes`.
pub open spec fn addresses(probes: Seq<DeviceProbe>) -> Seq<UsbDevice> {
    probes.map_values(|p: DeviceProbe| UsbDevice { device: p.device })
}

/// What the guest is told of `probes`: those whose descriptors could be read, in their
/// order, device `i` under the handle `reps[i]`.
pub open spec fn listing(probes: Seq<DeviceProbe>, reps: Seq<u32>) -> Seq<ListedDevice>
    decreases probes.len(),
{
    if probes.len() == 0 {
        Seq::empty()
    } else if probes.last().status < 0 {
        listing(probes.drop_last(), reps)
    } else {
        listing(probes.drop_last(), reps).push(probes.last().listed(reps[probes.len() - 1]))
    }
}

/// A call to libusb that reads a configuration descriptor.
#[derive(Debug, Clone, Copy, PartialEq, Eq, Structural)]
pub enum ConfigCall {
    ByIndex { device: usize, index: u8 },
    ByValue { device: usize, value: u8 },
    Active { device: usize },
}

/// Whether the event loop waits for the next event after a wait that ended with `status`.
pub fn event_loop_goes_on(status: i32) -> (goes_on: bool)
    ensures
        goes_on == (status >= 0),
{
    status >= 0
}

impl<'a> WasiUsbCtxView<'a> {
    /// Test whether libusb has to be initialised for this guest.
    pub fn init(&self) -> (needed: bool)
        ensures
            needed == self.state().init_needed(),
    {
        self.ctx.libusb_ctx().is_none()
    }

    /// Take the context that the initialisation of libusb gave. The answer is the flag that
    /// the event loop of the context has to watch, made to let the loop run.
    pub fn init_reply(&mut self, status: i32, context: usize) -> (reply: Result<
        Arc<AtomicBool>,
        LibusbError,
    >)
        ensures
            match reply {
                Ok(flag) => {
                    &&& status >= 0
                    &&& crate::flags::flag_starts(flag, true)
                    &&& final(self).state() == old(self).state().with_context(context, flag)
                },
                Err(error) => status < 0 && error == LibusbError::of_code(status as int)
                    && *final(self).ctx == *old(self).ctx,
            },
            *final(self).table == *old(self).table,
            *final(final(self).ctx) == *final(old(self).ctx),
            *final(final(self).table) == *final(old(self).table),
    {
        if status < 0 {
            return Err(LibusbError::from_raw(status));
        }
        Ok(self.ctx.set_context(context))
    }

    /// The libusb context whose devices are to be listed. There are none to list before the
    /// initialisation.
    pub fn list_devices(&self) -> (context: Result<usize, LibusbError>)
        ensures
            context == match self.state().libusb_ctx {
                Some(context) => Ok::<usize, LibusbError>(context),
                None => Err(LibusbError::NotFound),
            },
    {
        match self.ctx.libusb_ctx() {
            Some(context) => Ok(context),
            None => Err(LibusbError::NotFound),
        }
    }

    /// Make resources of the devices that libusb counted, and tell the guest of those whose
    /// descriptors could be read. A device whose descriptor could not be read becomes a
    /// resource all the same.
    pub fn list_devices_reply(&mut self, count: i64, probes: &Vec<DeviceProbe>) -> (reply: Result<
        Vec<ListedDevice>,
        LibusbError,
    >)
        ensures
            count < 0 ==> {
                &&& reply is Err
                &&& reply->Err_0 == LibusbError::of_code(crate::numbers::low_signed(count as int))
                &&& final(self).entries() == old(self).entries()
            },
            count >= 0 ==> match reply {
                Ok(list) => exists|reps: Seq<u32>|
                    {
                        &&& reps.len() == present(probes@).len()
                        &&& #[trigger] crate::table::devices_added(
                            old(self).entries(),
                            final(self).entries(),
                            addresses(present(probes@)),
                            reps,
                        )
                        &&& list@ == listing(present(probes@), reps)
                    },
                Err(error) => {
                    &&& error == LibusbError::Other
                    &&& !crate::table::has_room(final(self).entries(), old(self).capacity())
                    &&& exists|reps: Seq<u32>|
                        {
                            &&& reps.len() < present(probes@).len()
                            &&& #[trigger] crate::table::devices_added(
                                old(self).entries(),
                                final(self).entries(),
                                addresses(present(probes@)),
                                reps,
                            )
                        }
                },
            },
            count >= 0 && old(self).entries().dom().len() + present(probes@).len() <= old(
                self,
            ).capacity() && old(self).entries().dom().len() + present(probes@).len() <= u32::MAX + 1
                ==> reply is Ok,
            final(self).capacity() == old(self).capacity(),
            final(self).parents() == old(self).parents(),
            final(self).strays() == old(self).strays(),
            *final(self).ctx == *old(self).ctx,
            *final(final(self).ctx) == *final(old(self).ctx),
            *final(final(self).table) == *final(old(self).table),
    {
        if count < 0 {
            return Err(LibusbError::from_raw(count_to_signed(count)));
        }
        let ghost before = self.entries();
        let ghost all = addresses(present(probes@));
        let ghost mut reps: Seq<u32> = Seq::empty();
        let mut list: Vec<ListedDevice> = Vec::new();
        let mut i: usize = 0;
        proof {
            assert(probes@.take(0) =~= Seq::empty());
            crate::table::lemma_no_device_added(before, all);
        }
        while i < probes.len()
            invariant
                count >= 0,
                i <= probes@.len(),
                before == old(self).entries(),
                all == addresses(present(probes@)),
                self.capacity() == old(self).capacity(),
                self.parents() == old(self).parents(),
                self.strays() == old(self).strays(),
                *self.ctx == *old(self).ctx,
                *final(self.ctx) == *final(old(self).ctx),
                *final(self.table) == *final(old(self).table),
                reps.len() == present(probes@.take(i as int)).len(),
                crate::table::devices_added(before, self.entries(), all, reps),
                list@ == listing(present(probes@.take(i as int)), reps),
            decreases probes@.len() - i,
        {
            let probe = &probes[i];
            proof {
                lemma_present_step(probes@, i as int);
            }
            if probe.device != 0 {
                proof {
                    lemma_present_prefix(probes@, i + 1);
                    crate::table::lemma_added_slots(before, self.entries(), all, reps);
                }
                let ghost held = self.entries();
                match push(self.table, UsbDevice { device: probe.device }) {
                    Some(rep) => {
                        proof {
                            let had = present(probes@.take(i as int));
                            let now = present(probes@.take(i + 1));
                            assert(now.drop_last() =~= had);
                            lemma_listing_of_more(had, reps, rep);
                            crate::table::lemma_device_added(
                                before,
                                held,
                                all,
                                reps,
                                rep,
                            );
                            reps = reps.push(rep);
                        }
                        if probe.status >= 0 {
                            list.push(probe.list_as(rep));
                        }
                    },
                    None => {
                        assert(crate::table::devices_added(before, self.entries(), all, reps));
                        return Err(LibusbError::Other);
                    },
                }
            }
            i = i + 1;
        }
        assert(probes@.take(i as int) =~= probes@);
        Ok(list)
    }
}

impl<'a> WasiUsbCtxView<'a> {
    /// The address of the device that handle `rep` names.
    pub open spec fn device_address(&self, rep: u32) -> Option<usize> {
        match crate::table::device_at(self.entries(), rep) {
            Some(device) => Some(device.device),
            None => None,
        }
    }

    fn device(&self, rep: u32) -> (device: Option<usize>)
        ensures
            device == self.device_address(rep),
    {
        match get::<UsbDevice>(self.table, rep) {
            Some(device) => Some(device.device),
            None => None,
        }
    }

    /// The address of the device to open.
    pub fn open(&self, self_: u32) -> (device: Option<usize>)
        ensures
            device == self.device_address(self_),
    {
        self.device(self_)
    }

    /// Make a resource of the device handle that libusb opened.
    pub fn open_reply(&mut self, status: i32, handle: usize) -> (reply: Result<u32, LibusbError>)
        ensures
            match reply {
                Ok(rep) => {
                    &&& status >= 0
                    &&& !old(self).entries().contains_key(rep)
                    &&& !old(self).parents().contains(rep)
                    &&& final(self).entries() == old(self).entries().insert(
                        rep,
                        Entry::Handle(UsbDeviceHandle { handle }),
                    )
                },
                Err(error) => {
                    &&& final(self).entries() == old(self).entries()
                    &&& if status < 0 {
                        error == LibusbError::of_code(status as int)
                    } else {
                        error == LibusbError::Other && !crate::table::has_room(
                            old(self).entries(),
                            old(self).capacity(),
                        )
                    }
                },
            },
            final(self).capacity() == old(self).capacity(),
            final(self).parents() == old(self).parents(),
            final(self).strays() == old(self).strays(),
            *final(self).ctx == *old(self).ctx,
            *final(final(self).ctx) == *final(old(self).ctx),
            *final(final(self).table) == *final(old(self).table),
    {
        if status < 0 {
            return Err(LibusbError::from_raw(status));
        }
        match push(self.table, UsbDeviceHandle { handle }) {
            Some(rep) => Ok(rep),
            None => Err(LibusbError::Other),
        }
    }

    /// The call that reads the configuration with this index.
    pub fn get_configuration_descriptor(&self, self_: u32, config_index: u8) -> (call: Option<
        ConfigCall,
    >)
        ensures
            call == match self.device_address(self_) {
                Some(device) => Some(ConfigCall::ByIndex { device, index: config_index }),
                None => None,
            },
    {
        match self.device(self_) {
            Some(device) => Some(ConfigCall::ByIndex { device, index: config_index }),
            None => None,
        }
    }

    /// The call that reads the configuration with this value.
    pub fn get_configuration_descriptor_by_value(&self, self_: u32, config_value: u8) -> (call:
        Option<ConfigCall>)
        ensures
            call == match self.device_address(self_) {
                Some(device) => Some(ConfigCall::ByValue { device, value: config_value }),
                None => None,
            },
    {
        match self.device(self_) {
            Some(device) => Some(ConfigCall::ByValue { device, value: config_value }),
            None => None,
        }
    }

    /// The call that reads the configuration that the device has now.
    pub fn get_active_configuration_descriptor(&self, self_: u32) -> (call: Option<ConfigCall>)
        ensures
            call == match self.device_address(self_) {
                Some(device) => Some(ConfigCall::Active { device }),
                None => None,
            },
    {
        match self.device(self_) {
            Some(device) => Some(ConfigCall::Active { device }),
            None => None,
        }
    }

    /// The device to let go of, where the guest drops a device. The resource stays.
    pub fn drop_device(&self, rep: u32) -> (device: Option<usize>)
        ensures
            device == self.device_address(rep),
    {
        self.device(rep)
    }
}

/// One more device of a list.
proof fn lemma_present_step(probes: Seq<DeviceProbe>, i: int)
    requires
        0 <= i < probes.len(),
    ensures
        present(probes.take(i + 1)) == if probes[i].device == 0 {
            present(probes.take(i))
        } else {
            present(probes.take(i)).push(probes[i])
        },
{
    assert(probes.take(i + 1).drop_last() =~= probes.take(i));
}

/// The devices of the first part of a list come first among the devices of the list.
proof fn lemma_present_prefix(probes: Seq<DeviceProbe>, n: int)
    requires
        0 <= n <= probes.len(),
    ensures
        present(probes.take(n)).len() <= present(probes).len(),
        forall|i: int|
            0 <= i < present(probes.take(n)).len() ==> present(probes.take(n))[i]
                == #[trigger] present(probes)[i],
    decreases probes.len(),
{
    if n == probes.len() {
        assert(probes.take(n) =~= probes);
    } else {
        lemma_present_prefix(probes.drop_last(), n);
        assert(probes.drop_last().take(n) =~= probes.take(n));
    }
}

/// Handles for further devices change nothing in what the guest is told.
proof fn lemma_listing_of_more(probes: Seq<DeviceProbe>, reps: Seq<u32>, rep: u32)
    requires
        probes.len() <= reps.len(),
    ensures
        listing(probes, reps.push(rep)) == listing(probes, reps),
    decreases probes.len(),
{
    if probes.len() > 0 {
        lemma_listing_of_more(probes.drop_last(), reps, rep);
    }
}

} // verus!
