//! Devices that come and go.
use std::collections::VecDeque;

use vstd::prelude::*;

use crate::constants::{
    LIBUSB_CAP_HAS_HOTPLUG, LIBUSB_HOTPLUG_EVENT_DEVICE_ARRIVED, LIBUSB_HOTPLUG_EVENT_DEVICE_LEFT,
    LIBUSB_HOTPLUG_MATCH_ANY, LIBUSB_HOTPLUG_NO_FLAGS,
};
use crate::device::UsbDevice;
use crate::errors::LibusbError;
use crate::table::push;
use crate::usb::{CtxState, WasiUsbCtxView};

verus! {

/// What happened to a device.
#[derive(Debug, Clone, Copy, PartialEq, Eq, Structural)]
pub enum Event {
    Arrived,
    Left,
}

/// Which device it happened to.
#[derive(Debug, Clone, Copy, PartialEq, Eq, Structural)]
pub struct Info {
    pub bus: u8,
    pub address: u8,
    pub vendor: u16,
    pub product: u16,
}

impl Event {
    /// The event that a number of libusb stands for, if it stands for one.
    pub open spec fn of_code(code: i32) -> Option<Event> {
        if code == LIBUSB_HOTPLUG_EVENT_DEVICE_ARRIVED {
            Some(Event::Arrived)
        } else if code == LIBUSB_HOTPLUG_EVENT_DEVICE_LEFT {
            Some(Event::Left)
        } else {
            None
        }
    }
}

/// What becomes of a hotplug notification: what is queued, if anything is.
pub open spec fn accepted(descriptor_status: i32, code: i32, info: Info) -> Option<(Event, Info)> {
    match Event::of_code(code) {
        Some(event) if descriptor_status == 0 => Some((event, info)),
        _ => None,
    }
}

/// Decide what becomes of a hotplug notification: whether it is queued, and as what. It is
/// dropped where the descriptor of the device could not be read, and where libusb does not
/// define the event.
pub fn hotplug_cb(descriptor_status: i32, code: i32, info: Info) -> (queued: Option<(Event, Info)>)
    ensures
        queued == accepted(descriptor_status, code, info),
{
    if descriptor_status != 0 {
        return None;
    }
    if code == LIBUSB_HOTPLUG_EVENT_DEVICE_ARRIVED {
        Some((Event::Arrived, info))
    } else if code == LIBUSB_HOTPLUG_EVENT_DEVICE_LEFT {
        Some((Event::Left, info))
    } else {
        None
    }
}

/// The notifications that the guest has not polled yet, the oldest first.
pub struct HotplugQueue {
    queue: VecDeque<(Event, Info, UsbDevice)>,
}

impl View for HotplugQueue {
    type V = Seq<(Event, Info, UsbDevice)>;

    closed spec fn view(&self) -> Seq<(Event, Info, UsbDevice)> {
        self.queue@
    }
}

impl HotplugQueue {
    /// A queue without notifications.
    pub fn new() -> (queue: Self)
        ensures
            queue@ == Seq::<(Event, Info, UsbDevice)>::empty(),
    {
        HotplugQueue { queue: VecDeque::new() }
    }

    /// The number of notifications.
    pub fn len(&self) -> (len: usize)
        ensures
            len == self@.len(),
    {
        self.queue.len()
    }

    /// Add a notification at the end.
    pub fn push_back(&mut self, event: Event, info: Info, device: UsbDevice)
        ensures
            final(self)@ == old(self)@.push((event, info, device)),
    {
        self.queue.push_back((event, info, device));
    }

    /// Take the oldest notification.
    fn pop_front(&mut self) -> (front: Option<(Event, Info, UsbDevice)>)
        ensures
            match front {
                Some(front) => {
                    &&& old(self)@.len() > 0
                    &&& front == old(self)@[0]
                    &&& final(self)@ == old(self)@.skip(1)
                },
                None => old(self)@.len() == 0 && final(self)@ == old(self)@,
            },
    {
        self.queue.pop_front()
    }
}

/// What libusb is asked for where the hotplug callback is registered.
#[derive(Debug, Clone, Copy, PartialEq, Eq, Structural)]
pub struct HotplugRegistration {
    pub context: usize,
    pub events: i32,
    pub flags: i32,
    pub vendor_id: i32,
    pub product_id: i32,
    pub dev_class: i32,
}

impl HotplugRegistration {
    /// Both events, of every device of this context, from now on.
    pub open spec fn of(context: usize) -> HotplugRegistration {
        HotplugRegistration {
            context,
            events: (LIBUSB_HOTPLUG_EVENT_DEVICE_ARRIVED + LIBUSB_HOTPLUG_EVENT_DEVICE_LEFT) as i32,
            flags: LIBUSB_HOTPLUG_NO_FLAGS,
            vendor_id: LIBUSB_HOTPLUG_MATCH_ANY,
            product_id: LIBUSB_HOTPLUG_MATCH_ANY,
            dev_class: LIBUSB_HOTPLUG_MATCH_ANY,
        }
    }
}

/// The devices of `events`.
pub open spec fn devices_of(events: Seq<(Event, Info, UsbDevice)>) -> Seq<UsbDevice> {
    events.map_values(|e: (Event, Info, UsbDevice)| e.2)
}

/// What the guest is told of `events`, with the device of event `i` under handle `reps[i]`.
pub open spec fn polled(events: Seq<(Event, Info, UsbDevice)>, reps: Seq<u32>) -> Seq<
    (Event, Info, u32),
> {
    Seq::new(reps.len(), |i: int| (events[i].0, events[i].1, reps[i]))
}

impl CtxState {
    /// The capability to ask libusb for where the guest enables hotplug: none where the
    /// callback is registered already.
    pub open spec fn hotplug_capability(self) -> Option<u32> {
        if self.hotplug_handle is Some {
            None
        } else {
            Some(LIBUSB_CAP_HAS_HOTPLUG)
        }
    }

    /// The registration to make, where `capability` is what libusb answered when it was asked
    /// for the capability.
    pub open spec fn hotplug_registration(self, capability: i32) -> Result<
        HotplugRegistration,
        LibusbError,
    > {
        if capability == 0 {
            Err(LibusbError::NotSupported)
        } else {
            match self.libusb_ctx {
                Some(context) => Ok(HotplugRegistration::of(context)),
                None => Err(LibusbError::NotFound),
            }
        }
    }
}

impl<'a> WasiUsbCtxView<'a> {
    /// The capability that libusb must have before the hotplug callback is registered.
    /// There is nothing to do where the callback is registered already.
    pub fn enable_hotplug(&self) -> (capability: Option<u32>)
        ensures
            capability == self.state().hotplug_capability(),
    {
        if self.ctx.hotplug_handle().is_some() {
            None
        } else {
            Some(LIBUSB_CAP_HAS_HOTPLUG)
        }
    }

    /// The registration to make, where `capability` is what libusb answered when it was asked
    /// for the capability.
    pub fn hotplug_registration(&self, capability: i32) -> (registration: Result<
        HotplugRegistration,
        LibusbError,
    >)
        ensures
            registration == self.state().hotplug_registration(capability),
    {
        if capability == 0 {
            return Err(LibusbError::NotSupported);
        }
        match self.ctx.libusb_ctx() {
            Some(context) => {
                assert(1i32 | 2i32 == 3i32) by (bit_vector);
                Ok(
                    HotplugRegistration {
                        context,
                        events: LIBUSB_HOTPLUG_EVENT_DEVICE_ARRIVED
                            | LIBUSB_HOTPLUG_EVENT_DEVICE_LEFT,
                        flags: LIBUSB_HOTPLUG_NO_FLAGS,
                        vendor_id: LIBUSB_HOTPLUG_MATCH_ANY,
                        product_id: LIBUSB_HOTPLUG_MATCH_ANY,
                        dev_class: LIBUSB_HOTPLUG_MATCH_ANY,
                    },
                )
            },
            None => Err(LibusbError::NotFound),
        }
    }

    /// Answer the guest from the status of the registration, and keep the registration.
    pub fn enable_hotplug_reply(&mut self, status: i32, handle: i32) -> (reply: Result<
        (),
        LibusbError,
    >)
        ensures
            reply == LibusbError::of_status(status),
            status >= 0 ==> final(self).state() == old(self).state().with_hotplug(handle),
            status < 0 ==> *final(self).ctx == *old(self).ctx,
            *final(self).table == *old(self).table,
            *final(final(self).ctx) == *final(old(self).ctx),
            *final(final(self).table) == *final(old(self).table),
    {
        if status < 0 {
            return Err(LibusbError::from_raw(status));
        }
        self.ctx.set_hotplug(handle);
        Ok(())
    }

    /// Hand all notifications to the guest, the oldest first, each with a resource for its
    /// device. An error says that a notification was lost because there was no room for its
    /// device.
    pub fn poll_events(&mut self, queue: &mut HotplugQueue) -> (reply: Result<
        Vec<(Event, Info, u32)>,
        LibusbError,
    >)
        ensures
            match reply {
                Ok(events) => {
                    &&& final(queue)@.len() == 0
                    &&& exists|reps: Seq<u32>|
                        {
                            &&& reps.len() == old(queue)@.len()
                            &&& #[trigger] crate::table::devices_added(
                                old(self).entries(),
                                final(self).entries(),
                                devices_of(old(queue)@),
                                reps,
                            )
                            &&& events@ == polled(old(queue)@, reps)
                        }
                },
                Err(error) => {
                    &&& error == LibusbError::Other
                    &&& !crate::table::has_room(final(self).entries(), old(self).capacity())
                    &&& exists|reps: Seq<u32>|
                        {
                            &&& reps.len() < old(queue)@.len()
                            &&& #[trigger] crate::table::devices_added(
                                old(self).entries(),
                                final(self).entries(),
                                devices_of(old(queue)@),
                                reps,
                            )
                            &&& final(queue)@ == old(queue)@.skip(reps.len() as int + 1)
                        }
                },
            },
            old(self).entries().dom().len() + old(queue)@.len() <= old(self).capacity() && old(
                self,
            ).entries().dom().len() + old(queue)@.len() <= u32::MAX + 1 ==> reply is Ok,
            final(self).capacity() == old(self).capacity(),
            final(self).parents() == old(self).parents(),
            final(self).strays() == old(self).strays(),
            *final(self).ctx == *old(self).ctx,
            *final(final(self).ctx) == *final(old(self).ctx),
            *final(final(self).table) == *final(old(self).table),
    {
        let ghost before = self.entries();
        let ghost all = queue@;
        let ghost mut reps: Seq<u32> = Seq::empty();
        let mut events: Vec<(Event, Info, u32)> = Vec::new();
        proof {
            crate::table::lemma_no_device_added(before, devices_of(all));
            assert(all.skip(0) =~= all);
            assert(events@ =~= polled(all, reps));
        }
        loop
            invariant
                before == old(self).entries(),
                all == old(queue)@,
                self.capacity() == old(self).capacity(),
                self.parents() == old(self).parents(),
                self.strays() == old(self).strays(),
                *self.ctx == *old(self).ctx,
                *final(self.ctx) == *final(old(self).ctx),
                *final(self.table) == *final(old(self).table),
                reps.len() <= all.len(),
                queue@ == all.skip(reps.len() as int),
                crate::table::devices_added(before, self.entries(), devices_of(all), reps),
                events@ == polled(all, reps),
            decreases queue@.len(),
        {
            proof {
                crate::table::lemma_added_slots(before, self.entries(), devices_of(all), reps);
            }
            match queue.pop_front() {
                None => {
                    assert(crate::table::devices_added(
                        before,
                        self.entries(),
                        devices_of(all),
                        reps,
                    ));
                    return Ok(events);
                },
                Some((event, info, device)) => {
                    let ghost held = self.entries();
                    assert(all.skip(reps.len() as int).skip(1) =~= all.skip(reps.len() as int + 1));
                    match push(self.table, device) {
                        Some(rep) => {
                            proof {
                                assert(devices_of(all)[reps.len() as int] == device);
                                crate::table::lemma_device_added(
                                    before,
                                    held,
                                    devices_of(all),
                                    reps,
                                    rep,
                                );
                                reps = reps.push(rep);
                            }
                            events.push((event, info, rep));
                            assert(events@ =~= polled(all, reps));
                        },
                        None => {
                            assert(crate::table::devices_added(
                                before,
                                self.entries(),
                                devices_of(all),
                                reps,
                            ));
                            return Err(LibusbError::Other);
                        },
                    }
                },
            }
        }
    }
}

} // verus!
