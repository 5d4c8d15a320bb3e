//! The libusb numbers that the rules of this library speak of.
use vstd::prelude::*;

verus! {

/// Transfer type of a control transfer.
pub const LIBUSB_TRANSFER_TYPE_CONTROL: u8 = 0;

/// Transfer type of an isochronous transfer.
pub const LIBUSB_TRANSFER_TYPE_ISOCHRONOUS: u8 = 1;

/// Transfer type of a bulk transfer.
pub const LIBUSB_TRANSFER_TYPE_BULK: u8 = 2;

/// Transfer type of an interrupt transfer.
pub const LIBUSB_TRANSFER_TYPE_INTERRUPT: u8 = 3;

/// Status of a transfer that ran to its end.
pub const LIBUSB_TRANSFER_COMPLETED: i32 = 0;

/// Status of a transfer that failed.
pub const LIBUSB_TRANSFER_ERROR: i32 = 1;

/// Status of a transfer that timed out.
pub const LIBUSB_TRANSFER_TIMED_OUT: i32 = 2;

/// Status of a transfer that was cancelled.
pub const LIBUSB_TRANSFER_CANCELLED: i32 = 3;

/// Status of a transfer whose endpoint stalled.
pub const LIBUSB_TRANSFER_STALL: i32 = 4;

/// Status of a transfer whose device is gone.
pub const LIBUSB_TRANSFER_NO_DEVICE: i32 = 5;

/// Status of a transfer whose device sent more than was asked for.
pub const LIBUSB_TRANSFER_OVERFLOW: i32 = 6;

/// The capability to report hotplug events.
pub const LIBUSB_CAP_HAS_HOTPLUG: u32 = 1;

/// Hotplug event: a device is there and ready.
pub const LIBUSB_HOTPLUG_EVENT_DEVICE_ARRIVED: i32 = 1;

/// Hotplug event: a device is gone.
pub const LIBUSB_HOTPLUG_EVENT_DEVICE_LEFT: i32 = 2;

/// No flag at the registration of a hotplug callback.
pub const LIBUSB_HOTPLUG_NO_FLAGS: i32 = 0;

/// Any vendor, product or class at the registration of a hotplug callback.
pub const LIBUSB_HOTPLUG_MATCH_ANY: i32 = -1;

/// The direction bit of an endpoint address and of a control request: set where the
/// device sends.
pub const DIRECTION_IN: u8 = 0x80;

/// The number of bytes of a control setup packet.
pub const SETUP_LEN: u32 = 8;

/// How long one turn of the event loop waits, in microseconds.
pub const EVENT_TIMEOUT_US: i64 = 20_000;

} // verus!
