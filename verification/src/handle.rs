//! Operations on open devices.
use vstd::prelude::*;

use crate::device::UsbDeviceHandle;
use crate::errors::LibusbError;
use crate::numbers::{len_to_signed, to_byte};
use crate::table::{delete, get};
use crate::usb::WasiUsbCtxView;

verus! {

/// A call to libusb on an open device that gives back a status.
#[derive(Debug, PartialEq, Eq)]
pub enum StatusCall {
    SetConfiguration { handle: usize, configuration: i32 },
    ClaimInterface { handle: usize, interface: i32 },
    ReleaseInterface { handle: usize, interface: i32 },
    SetInterfaceAltSetting { handle: usize, interface: i32, alt_setting: i32 },
    ClearHalt { handle: usize, endpoint: u8 },
    ResetDevice { handle: usize },
    AllocStreams { handle: usize, num_streams: u32, endpoints: Vec<u8>, num_endpoints: i32 },
    FreeStreams { handle: usize, endpoints: Vec<u8>, num_endpoints: i32 },
    KernelDriverActive { handle: usize, interface: i32 },
    DetachKernelDriver { handle: usize, interface: i32 },
    AttachKernelDriver { handle: usize, interface: i32 },
}

/// The configuration that the guest wants a device to have.
#[derive(Debug, Clone, Copy, PartialEq, Eq, Structural)]
pub enum ConfigValue {
    Value(u8),
    Unconfigured,
}

impl ConfigValue {
    /// The number that libusb is handed for this configuration.
    pub open spec fn code(self) -> i32 {
        match self {
            ConfigValue::Value(value) => value as i32,
            ConfigValue::Unconfigured => 0,
        }
    }

    fn to_raw(self) -> (code: i32)
        ensures
            code == self.code(),
    {
        match self {
            ConfigValue::Value(value) => value as i32,
            ConfigValue::Unconfigured => 0,
        }
    }
}

/// Answer which configuration a device has, from the status and the number that libusb
/// returned.
pub fn get_configuration_reply(status: i32, configuration: i32) -> (reply: Result<u8, LibusbError>)
    ensures
        reply == if status >= 0 {
            Ok::<u8, LibusbError>((configuration as int % 256) as u8)
        } else {
            Err(LibusbError::of_code(status as int))
        },
{
    if status >= 0 {
        Ok(to_byte(configuration))
    } else {
        Err(LibusbError::from_raw(status))
    }
}

/// Answer whether a kernel driver is active, from the status that libusb returned.
pub fn kernel_driver_active_reply(status: i32) -> (reply: Result<bool, LibusbError>)
    ensures
        reply == if status >= 0 {
            Ok::<bool, LibusbError>(status > 0)
        } else {
            Err(LibusbError::of_code(status as int))
        },
{
    if status == 0 {
        Ok(false)
    } else if status > 0 {
        Ok(true)
    } else {
        Err(LibusbError::from_raw(status))
    }
}

impl<'a> WasiUsbCtxView<'a> {
    /// The address of the open device that handle `rep` names.
    pub open spec fn handle_address(&self, rep: u32) -> Option<usize> {
        match crate::table::handle_at(self.entries(), rep) {
            Some(handle) => Some(handle.handle),
            None => None,
        }
    }

    pub(crate) fn handle(&self, rep: u32) -> (handle: Option<usize>)
        ensures
            handle == self.handle_address(rep),
    {
        match get::<UsbDeviceHandle>(self.table, rep) {
            Some(handle) => Some(handle.handle),
            None => None,
        }
    }

    /// The open device whose configuration is asked for.
    pub fn get_configuration(&self, self_: u32) -> (handle: Option<usize>)
        ensures
            handle == self.handle_address(self_),
    {
        self.handle(self_)
    }

    /// The call that configures the device.
    pub fn set_configuration(&self, self_: u32, config: ConfigValue) -> (call: Option<StatusCall>)
        ensures
            call == match self.handle_address(self_) {
                Some(handle) => Some(
                    StatusCall::SetConfiguration { handle, configuration: config.code() },
                ),
                None => None,
            },
    {
        match self.handle(self_) {
            Some(handle) => Some(
                StatusCall::SetConfiguration { handle, configuration: config.to_raw() },
            ),
            None => None,
        }
    }

    /// The call that claims an interface.
    pub fn claim_interface(&self, self_: u32, ifac: u8) -> (call: Option<StatusCall>)
        ensures
            call == match self.handle_address(self_) {
                Some(handle) => Some(StatusCall::ClaimInterface { handle, interface: ifac as i32 }),
                None => None,
            },
    {
        match self.handle(self_) {
            Some(handle) => Some(StatusCall::ClaimInterface { handle, interface: ifac as i32 }),
            None => None,
        }
    }

    /// The call that releases an interface.
    pub fn release_interface(&self, self_: u32, ifac: u8) -> (call: Option<StatusCall>)
        ensures
            call == match self.handle_address(self_) {
                Some(handle) => Some(
                    StatusCall::ReleaseInterface { handle, interface: ifac as i32 },
                ),
                None => None,
            },
    {
        match self.handle(self_) {
            Some(handle) => Some(StatusCall::ReleaseInterface { handle, interface: ifac as i32 }),
            None => None,
        }
    }

    /// The call that activates an alternate setting of an interface.
    pub fn set_interface_altsetting(
        &self,
        self_: u32,
        ifac: u8,
        alt_setting: u8,
    ) -> (call: Option<StatusCall>)
        ensures
            call == match self.handle_address(self_) {
                Some(handle) => Some(
                    StatusCall::SetInterfaceAltSetting {
                        handle,
                        interface: ifac as i32,
                        alt_setting: alt_setting as i32,
                    },
                ),
                None => None,
            },
    {
        match self.handle(self_) {
            Some(handle) => Some(
                StatusCall::SetInterfaceAltSetting {
                    handle,
                    interface: ifac as i32,
                    alt_setting: alt_setting as i32,
                },
            ),
            None => None,
        }
    }

    /// The call that clears the halt of an endpoint.
    pub fn clear_halt(&self, self_: u32, endpoint: u8) -> (call: Option<StatusCall>)
        ensures
            call == match self.handle_address(self_) {
                Some(handle) => Some(StatusCall::ClearHalt { handle, endpoint }),
                None => None,
            },
    {
        match self.handle(self_) {
            Some(handle) => Some(StatusCall::ClearHalt { handle, endpoint }),
            None => None,
        }
    }

    /// The call that resets the device.
    pub fn reset_device(&self, self_: u32) -> (call: Option<StatusCall>)
        ensures
            call == match self.handle_address(self_) {
                Some(handle) => Some(StatusCall::ResetDevice { handle }),
                None => None,
            },
    {
        match self.handle(self_) {
            Some(handle) => Some(StatusCall::ResetDevice { handle }),
            None => None,
        }
    }

    /// The call that asks whether a kernel driver is active on an interface.
    pub fn kernel_driver_active(&self, self_: u32, ifac: u8) -> (call: Option<StatusCall>)
        ensures
            call == match self.handle_address(self_) {
                Some(handle) => Some(
                    StatusCall::KernelDriverActive { handle, interface: ifac as i32 },
                ),
                None => None,
            },
    {
        match self.handle(self_) {
            Some(handle) => Some(StatusCall::KernelDriverActive { handle, interface: ifac as i32 }),
            None => None,
        }
    }

    /// The call that detaches the kernel driver from an interface.
    pub fn detach_kernel_driver(&self, self_: u32, ifac: u8) -> (call: Option<StatusCall>)
        ensures
            call == match self.handle_address(self_) {
                Some(handle) => Some(
                    StatusCall::DetachKernelDriver { handle, interface: ifac as i32 },
                ),
                None => None,
            },
    {
        match self.handle(self_) {
            Some(handle) => Some(StatusCall::DetachKernelDriver { handle, interface: ifac as i32 }),
            None => None,
        }
    }

    /// The call that attaches the kernel driver to an interface.
    pub fn attach_kernel_driver(&self, self_: u32, ifac: u8) -> (call: Option<StatusCall>)
        ensures
            call == match self.handle_address(self_) {
                Some(handle) => Some(
                    StatusCall::AttachKernelDriver { handle, interface: ifac as i32 },
                ),
                None => None,
            },
    {
        match self.handle(self_) {
            Some(handle) => Some(StatusCall::AttachKernelDriver { handle, interface: ifac as i32 }),
            None => None,
        }
    }

    /// The call that allocates streams on the given endpoints.
    pub fn alloc_streams(&self, self_: u32, num_streams: u32, endpoints: Vec<u8>) -> (call: Option<
        StatusCall,
    >)
        ensures
            match call {
                Some(call) => {
                    &&& call is AllocStreams
                    &&& self.handle_address(self_) == Some(call->AllocStreams_handle)
                    &&& call->num_streams == num_streams
                    &&& call->AllocStreams_endpoints == endpoints
                    &&& call->AllocStreams_num_endpoints == crate::numbers::low_signed(
                        endpoints@.len() as int,
                    )
                },
                None => self.handle_address(self_) is None,
            },
    {
        match self.handle(self_) {
            Some(handle) => {
                let num_endpoints: i32 = len_to_signed(endpoints.len());
                Some(StatusCall::AllocStreams { handle, num_streams, endpoints, num_endpoints })
            },
            None => None,
        }
    }

    /// The call that frees the streams of the given endpoints.
    pub fn free_streams(&self, self_: u32, endpoints: Vec<u8>) -> (call: Option<StatusCall>)
        ensures
            match call {
                Some(call) => {
                    &&& call is FreeStreams
                    &&& self.handle_address(self_) == Some(call->FreeStreams_handle)
                    &&& call->FreeStreams_endpoints == endpoints
                    &&& call->FreeStreams_num_endpoints == crate::numbers::low_signed(
                        endpoints@.len() as int,
                    )
                },
                None => self.handle_address(self_) is None,
            },
    {
        match self.handle(self_) {
            Some(handle) => {
                let num_endpoints: i32 = len_to_signed(endpoints.len());
                Some(StatusCall::FreeStreams { handle, endpoints, num_endpoints })
            },
            None => None,
        }
    }

    /// The open device to close. A handle that the guest gave away (`owned`) closes nothing.
    pub fn close(&self, self_: u32, owned: bool) -> (handle: Option<usize>)
        ensures
            handle == if owned {
                None
            } else {
                self.handle_address(self_)
            },
    {
        if owned {
            None
        } else {
            self.handle(self_)
        }
    }

    /// Remove the resource of an open device that libusb has closed. `false` says that the
    /// resource could not be removed. The resource must not be a stray of the table.
    pub fn close_reply(&mut self, self_: u32) -> (removed: bool)
        requires
            !old(self).strays().contains(self_),
        ensures
            removed == (old(self).handle_address(self_) is Some && !old(self).parents().contains(
                self_,
            )),
            final(self).entries() == if old(self).parents().contains(self_) {
                old(self).entries()
            } else {
                old(self).entries().remove(self_)
            },
            final(self).capacity() == old(self).capacity(),
            final(self).parents().subset_of(old(self).parents()),
            final(self).strays() == old(self).strays(),
            *final(self).ctx == *old(self).ctx,
            *final(final(self).ctx) == *final(old(self).ctx),
            *final(final(self).table) == *final(old(self).table),
    {
        delete::<UsbDeviceHandle>(self.table, self_).is_some()
    }

    /// The open device to close, where the guest drops its handle.
    pub fn drop_handle(&self, rep: u32, owned: bool) -> (handle: Option<usize>)
        ensures
            handle == if owned {
                None
            } else {
                self.handle_address(rep)
            },
    {
        self.close(rep, owned)
    }
}

} // verus!
