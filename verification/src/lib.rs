//! The USB host of a WebAssembly guest: the rules by which guest operations on USB devices
//! become calls to libusb, and by which what libusb returns becomes an answer to the guest.
//!
//! No call to libusb is made here. A guest operation that needs one comes in two halves: the
//! first half works out the call from the guest's arguments and resources, the second half,
//! named `.._reply`, takes what the call returned. Addresses of libusb objects are plain
//! numbers, and the guest's handles are the slot numbers of its resource table.
pub mod channel;
pub mod completion;
pub mod constants;
pub mod descriptors;
pub mod device;
pub mod errors;
pub mod flags;
pub mod handle;
pub mod hotplug;
pub mod laws;
pub mod meanings;
pub mod numbers;
pub mod operations;
pub mod packets;
pub mod submission;
pub mod table;
pub mod transfers;
pub mod usb;

pub use completion::{
    transfer_callback, FinishedTransfer, TransferContext, TransferReport, TransferResult,
};
pub use descriptors::{
    config_descriptor_reply, generate_config_descriptor, ConfigurationDescriptor,
    DeviceDescriptor, EndpointDescriptor, InterfaceDescriptor,
};
pub use device::{DeviceLocation, DeviceProbe, UsbDevice, UsbDeviceHandle, UsbSpeed};
pub use errors::{status_reply, LibusbError};
pub use handle::{ConfigValue, StatusCall};
pub use hotplug::{hotplug_cb, Event, HotplugQueue, Info};
pub use packets::TransferSetup;
pub use submission::CancelStep;
pub use transfers::{SubmitStep, TransferOptions, TransferRequest, TransferType, UsbTransfer};
pub use usb::{new_guest, WasiUsbCtx, WasiUsbCtxView, WasiUsbView};
