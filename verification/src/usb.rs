//! The state of a USB host, and the view of it that every guest operation works on.
use std::sync::atomic::AtomicBool;
use std::sync::Arc;

use vstd::prelude::*;
use wasmtime_wasi::ResourceTable;

use crate::table::Entry;

verus! {

/// The USB state of one guest.
pub struct WasiUsbCtx {
    libusb_ctx: Option<usize>,
    event_loop_flag: Option<Arc<AtomicBool>>,
    hotplug_enabled: bool,
    hotplug_handle: Option<i32>,
}

/// What is known of the USB state of one guest.
pub struct CtxState {
    /// The address of the libusb context, once there is one.
    pub libusb_ctx: Option<usize>,
    /// The flag that keeps the event loop running, once there is a libusb context.
    pub event_loop_flag: Option<Arc<AtomicBool>>,
    /// Whether the guest was made so, or has registered the hotplug callback. This is only
    /// recorded: a request of the guest registers the callback either way.
    pub hotplug_enabled: bool,
    /// The registration of the hotplug callback, once there is one.
    pub hotplug_handle: Option<i32>,
}

impl CtxState {
    /// What holds of every state: the event loop has its flag as soon as there is a libusb
    /// context to wait on, the flag was made to let the loop run, and a callback is registered
    /// only where hotplug is enabled.
    pub open spec fn well_formed(self) -> bool {
        &&& self.event_loop_flag matches Some(flag) ==> crate::flags::flag_starts(flag, true)
        &&& self.libusb_ctx is Some <==> self.event_loop_flag is Some
        &&& self.hotplug_handle is Some ==> self.hotplug_enabled
    }

    /// The state of a new guest.
    pub open spec fn initial(hotplug_enabled: bool) -> CtxState {
        CtxState {
            libusb_ctx: None,
            event_loop_flag: None,
            hotplug_enabled,
            hotplug_handle: None,
        }
    }

    /// Whether libusb has to be initialised.
    pub open spec fn init_needed(self) -> bool {
        self.libusb_ctx is None
    }

    /// The state with a libusb context and the flag of its event loop.
    pub open spec fn with_context(self, context: usize, flag: Arc<AtomicBool>) -> CtxState {
        CtxState { libusb_ctx: Some(context), event_loop_flag: Some(flag), ..self }
    }

    /// The state with a registered hotplug callback.
    pub open spec fn with_hotplug(self, handle: i32) -> CtxState {
        CtxState { hotplug_enabled: true, hotplug_handle: Some(handle), ..self }
    }
}

impl View for WasiUsbCtx {
    type V = CtxState;

    closed spec fn view(&self) -> CtxState {
        CtxState {
            libusb_ctx: self.libusb_ctx,
            event_loop_flag: self.event_loop_flag,
            hotplug_enabled: self.hotplug_enabled,
            hotplug_handle: self.hotplug_handle,
        }
    }
}

impl WasiUsbCtx {
    #[verifier::type_invariant]
    closed spec fn type_invariant(self) -> bool {
        self@.well_formed()
    }

    /// The state of a new guest. Whether hotplug is enabled is only recorded: a request of the
    /// guest registers the callback either way.
    pub fn new(hotplug_enabled: bool) -> (ctx: Self)
        ensures
            ctx@ == CtxState::initial(hotplug_enabled),
    {
        Self { libusb_ctx: None, event_loop_flag: None, hotplug_enabled, hotplug_handle: None }
    }

    /// The address of the libusb context, once there is one.
    pub fn libusb_ctx(&self) -> (context: Option<usize>)
        ensures
            context == self@.libusb_ctx,
            self@.well_formed(),
    {
        proof {
            use_type_invariant(self);
        }
        self.libusb_ctx
    }

    /// Whether the guest was made with hotplug enabled, or has registered the callback.
    pub fn hotplug_enabled(&self) -> (enabled: bool)
        ensures
            enabled == self@.hotplug_enabled,
    {
        self.hotplug_enabled
    }

    /// The registration of the hotplug callback, once there is one.
    pub fn hotplug_handle(&self) -> (handle: Option<i32>)
        ensures
            handle == self@.hotplug_handle,
    {
        self.hotplug_handle
    }

    /// Take a new libusb context and make the flag of its event loop, set to run. The flag
    /// is given out for the loop to watch.
    pub(crate) fn set_context(&mut self, context: usize) -> (flag: Arc<AtomicBool>)
        ensures
            final(self)@ == old(self)@.with_context(context, flag),
            crate::flags::flag_starts(flag, true),
    {
        proof {
            use_type_invariant(&*self);
        }
        let flag = Arc::new(AtomicBool::new(true));
        *self =
        WasiUsbCtx {
            libusb_ctx: Some(context),
            event_loop_flag: Some(flag.clone()),
            hotplug_enabled: self.hotplug_enabled,
            hotplug_handle: self.hotplug_handle,
        };
        flag
    }

    /// Note the registration of the hotplug callback.
    pub(crate) fn set_hotplug(&mut self, handle: i32)
        ensures
            final(self)@ == old(self)@.with_hotplug(handle),
    {
        proof {
            use_type_invariant(&*self);
        }
        self.hotplug_enabled = true;
        self.hotplug_handle = Some(handle);
    }
}

/// The USB state of a new guest and a table for its resources. The table has no strays, and no
/// operation of this library makes one.
pub fn new_guest(hotplug_enabled: bool) -> (guest: (WasiUsbCtx, ResourceTable))
    ensures
        guest.0@ == CtxState::initial(hotplug_enabled),
        crate::table::table_entries(guest.1).dom() == Set::<u32>::empty(),
        crate::table::table_parents(guest.1) == Set::<u32>::empty(),
        crate::table::table_strays(guest.1) == Set::<u32>::empty(),
{
    (WasiUsbCtx::new(hotplug_enabled), ResourceTable::new())
}

/// What a guest operation works on: the USB state of the guest and its resources.
pub struct WasiUsbCtxView<'a> {
    pub ctx: &'a mut WasiUsbCtx,
    pub table: &'a mut ResourceTable,
}

impl<'a> WasiUsbCtxView<'a> {
    /// The USB state of the guest.
    pub open spec fn state(&self) -> CtxState {
        self.ctx@
    }

    /// The occupied slots of the guest's table.
    pub open spec fn entries(&self) -> Map<u32, Entry> {
        crate::table::table_entries(*self.table)
    }

    /// The slots of the guest's table whose entries have children.
    pub open spec fn parents(&self) -> Set<u32> {
        crate::table::table_parents(*self.table)
    }

    /// The slots of the guest's table whose entries are strays.
    pub open spec fn strays(&self) -> Set<u32> {
        crate::table::table_strays(*self.table)
    }

    /// The number of slots that the guest's table may have.
    pub open spec fn capacity(&self) -> nat {
        crate::table::table_capacity(*self.table)
    }
}

/// A host state that has USB.
pub trait WasiUsbView {
    /// The part of the state that USB operations work on.
    fn usb(&mut self) -> WasiUsbCtxView<'_>;
}

} // verus!
