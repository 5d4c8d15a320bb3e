//! What each operation does, in terms of what it is handed and what it gives.
//!
//! A law here speaks of a call: where `call_ensures` holds of a function, its arguments and a
//! result, the call can have ended so. What follows from that is said in plain bytes, numbers
//! and fields.
use std::sync::atomic::{AtomicBool, Ordering};
use std::sync::Arc;

use tokio::sync::oneshot;
use vstd::prelude::*;
use wasmtime_wasi::ResourceTable;

use crate::completion::{FinishedTransfer, TransferContext, TransferReport, TransferResult};
use crate::descriptors::{
    ConfigurationDescriptor, DeviceDescriptor, EndpointDescriptor, InterfaceDescriptor,
    RawAltSetting, RawConfig, RawDeviceDescriptor, RawEndpoint,
};
use crate::device::{
    ConfigCall, DeviceProbe, ListedDevice, UsbDevice, UsbDeviceHandle, UsbSpeed,
};
use crate::errors::LibusbError;
use crate::handle::{ConfigValue, StatusCall};
use crate::hotplug::{Event, HotplugQueue, HotplugRegistration, Info};
use crate::packets::TransferSetup;
use crate::submission::CancelStep;
use crate::table::Entry;
use crate::transfers::{
    SubmitStep, TransferFields, TransferOptions, TransferPlan, TransferRequest, TransferType,
    UsbTransfer,
};
use crate::usb::{WasiUsbCtx, WasiUsbCtxView};

verus! {

// ---- numbers ----

/// `is_device_to_host` reads the top bit and nothing else.
pub proof fn law_is_device_to_host(direction: u8, sends: bool)
    requires
        call_ensures(crate::completion::is_device_to_host, (direction,), sends),
    ensures
        sends <==> direction & 0x80 != 0,
{
    crate::meanings::law_direction_is_the_top_bit(direction);
}

/// `LibusbError::from_raw` gives each error for its own number, and `Other` for all the rest.
pub proof fn law_error_from_raw(value: i32, error: LibusbError)
    requires
        call_ensures(LibusbError::from_raw, (value,), error),
    ensures
        error == LibusbError::Io <==> value == -1,
        error == LibusbError::InvalidParam <==> value == -2,
        error == LibusbError::Access <==> value == -3,
        error == LibusbError::NoDevice <==> value == -4,
        error == LibusbError::NotFound <==> value == -5,
        error == LibusbError::Busy <==> value == -6,
        error == LibusbError::Timeout <==> value == -7,
        error == LibusbError::Overflow <==> value == -8,
        error == LibusbError::Pipe <==> value == -9,
        error == LibusbError::Interrupted <==> value == -10,
        error == LibusbError::NoMem <==> value == -11,
        error == LibusbError::NotSupported <==> value == -12,
        error == LibusbError::Other <==> value < -12 || value > -1,
{
    crate::meanings::law_every_error_has_its_code(value as int);
}

/// `status_reply` gives success for every status that is not negative, and else the error of
/// that number.
pub proof fn law_status_reply(value: i32, reply: Result<(), LibusbError>)
    requires
        call_ensures(crate::errors::status_reply, (value,), reply),
    ensures
        reply is Ok <==> value >= 0,
        reply is Err ==> {
            let error = reply->Err_0;
            &&& error == LibusbError::Io <==> value == -1
            &&& error == LibusbError::InvalidParam <==> value == -2
            &&& error == LibusbError::Access <==> value == -3
            &&& error == LibusbError::NoDevice <==> value == -4
            &&& error == LibusbError::NotFound <==> value == -5
            &&& error == LibusbError::Busy <==> value == -6
            &&& error == LibusbError::Timeout <==> value == -7
            &&& error == LibusbError::Overflow <==> value == -8
            &&& error == LibusbError::Pipe <==> value == -9
            &&& error == LibusbError::Interrupted <==> value == -10
            &&& error == LibusbError::NoMem <==> value == -11
            &&& error == LibusbError::NotSupported <==> value == -12
            &&& error == LibusbError::Other <==> value < -12
        },
{
    crate::meanings::law_every_error_has_its_status(value);
}

/// `UsbSpeed::from_raw` gives each speed for its own number, and `Unknown` for all the rest.
pub proof fn law_speed_from_raw(value: u8, speed: UsbSpeed)
    requires
        call_ensures(UsbSpeed::from_raw, (value,), speed),
    ensures
        speed == UsbSpeed::Low <==> value == 1,
        speed == UsbSpeed::Full <==> value == 2,
        speed == UsbSpeed::High <==> value == 3,
        speed == UsbSpeed::Super <==> value == 4,
        speed == UsbSpeed::SuperPlus <==> value == 5,
        speed == UsbSpeed::SuperPlusX2 <==> value == 6,
        speed == UsbSpeed::Unknown <==> value == 0 || value > 6,
{
    crate::meanings::law_every_speed_has_its_number(value);
}

/// `TransferType::to_raw` gives libusb's numbers.
pub proof fn law_transfer_type_to_raw(kind: TransferType, code: u8)
    requires
        call_ensures(TransferType::to_raw, (kind,), code),
    ensures
        kind is Control <==> code == 0,
        kind is Isochronous <==> code == 1,
        kind is Bulk <==> code == 2,
        kind is Interrupt <==> code == 3,
{
    crate::meanings::law_every_kind_has_its_number(kind);
}

/// `element_count` gives the number itself, and none for a negative one;
/// `event_loop_goes_on` goes by the sign.
pub proof fn law_counts_and_signs(count: i32, elements: usize, status: i32, goes_on: bool)
    ensures
        call_ensures(crate::descriptors::element_count, (count,), elements) ==> {
            &&& count >= 0 ==> elements == count
            &&& count < 0 ==> elements == 0
        },
        call_ensures(crate::device::event_loop_goes_on, (status,), goes_on) ==> (goes_on <==> status
            >= 0),
{
}

/// `iso_packet_lengths` spreads all bytes evenly, with the rest in the last packet.
pub proof fn law_iso_packet_lengths(total: u32, count: i32, lengths: Vec<u32>, i: int)
    requires
        call_ensures(crate::packets::iso_packet_lengths, (total, count), lengths),
    ensures
        count <= 0 ==> lengths@.len() == 0,
        count > 0 ==> {
            &&& lengths@.len() == count
            &&& crate::packets::sum(lengths@) == total
        },
        0 <= i < count - 1 ==> count * lengths@[i] <= total < count * (lengths@[i] + 1),
{
    crate::meanings::law_bytes_are_spread_evenly(total, count as int, i);
}

// ---- descriptors ----

/// `DeviceDescriptor::from_raw` hands every field on as it is.
pub proof fn law_device_descriptor_from_raw(
    raw: RawDeviceDescriptor,
    descriptor: DeviceDescriptor,
)
    requires
        call_ensures(DeviceDescriptor::from_raw, (&raw,), descriptor),
    ensures
        descriptor.length == raw.b_length,
        descriptor.descriptor_type == raw.b_descriptor_type,
        descriptor.usb_version_bcd == raw.bcd_usb,
        descriptor.device_class == raw.b_device_class,
        descriptor.device_subclass == raw.b_device_sub_class,
        descriptor.device_protocol == raw.b_device_protocol,
        descriptor.max_packet_size0 == raw.b_max_packet_size0,
        descriptor.vendor_id == raw.id_vendor,
        descriptor.product_id == raw.id_product,
        descriptor.device_version_bcd == raw.bcd_device,
        descriptor.manufacturer_index == raw.i_manufacturer,
        descriptor.product_index == raw.i_product,
        descriptor.serial_number_index == raw.i_serial_number,
        descriptor.num_configurations == raw.b_num_configurations,
{
    crate::meanings::law_device_descriptor_fields(raw);
}

/// `EndpointDescriptor::from_raw` hands every field on as it is.
pub proof fn law_endpoint_descriptor_from_raw(raw: RawEndpoint, descriptor: EndpointDescriptor)
    requires
        call_ensures(EndpointDescriptor::from_raw, (&raw,), descriptor),
    ensures
        descriptor.length == raw.b_length,
        descriptor.descriptor_type == raw.b_descriptor_type,
        descriptor.endpoint_address == raw.b_endpoint_address,
        descriptor.attributes == raw.bm_attributes,
        descriptor.max_packet_size == raw.w_max_packet_size,
        descriptor.interval == raw.b_interval,
        descriptor.refresh == raw.b_refresh,
        descriptor.synch_address == raw.b_synch_address,
{
    crate::meanings::law_endpoint_descriptor_fields(raw);
}

/// `InterfaceDescriptor::from_raw` hands every field on as it is, and every field of each
/// endpoint.
pub proof fn law_interface_descriptor_from_raw(
    raw: RawAltSetting,
    descriptor: InterfaceDescriptor,
    k: int,
)
    requires
        call_ensures(InterfaceDescriptor::from_raw, (&raw,), descriptor),
    ensures
        descriptor.length == raw.b_length,
        descriptor.descriptor_type == raw.b_descriptor_type,
        descriptor.interface_number == raw.b_interface_number,
        descriptor.alternate_setting == raw.b_alternate_setting,
        descriptor.interface_class == raw.b_interface_class,
        descriptor.interface_subclass == raw.b_interface_sub_class,
        descriptor.interface_protocol == raw.b_interface_protocol,
        descriptor.interface_index == raw.i_interface,
        descriptor.endpoints@.len() == raw.endpoints@.len(),
        0 <= k < raw.endpoints@.len() ==> {
            &&& descriptor.endpoints@[k].length == raw.endpoints@[k].b_length
            &&& descriptor.endpoints@[k].descriptor_type == raw.endpoints@[k].b_descriptor_type
            &&& descriptor.endpoints@[k].endpoint_address == raw.endpoints@[k].b_endpoint_address
            &&& descriptor.endpoints@[k].attributes == raw.endpoints@[k].bm_attributes
            &&& descriptor.endpoints@[k].max_packet_size == raw.endpoints@[k].w_max_packet_size
            &&& descriptor.endpoints@[k].interval == raw.endpoints@[k].b_interval
            &&& descriptor.endpoints@[k].refresh == raw.endpoints@[k].b_refresh
            &&& descriptor.endpoints@[k].synch_address == raw.endpoints@[k].b_synch_address
        },
{
    crate::meanings::law_interface_descriptor_fields(descriptor, raw, k);
}

/// `generate_config_descriptor` hands every field on as it is, and gives one interface
/// descriptor for each alternate setting, with its fields and those of its endpoints.
pub proof fn law_generate_config_descriptor(
    raw: RawConfig,
    descriptor: ConfigurationDescriptor,
    i: int,
    j: int,
    k: int,
)
    requires
        call_ensures(crate::descriptors::generate_config_descriptor, (&raw,), descriptor),
    ensures
        descriptor.length == raw.b_length,
        descriptor.descriptor_type == raw.b_descriptor_type,
        descriptor.total_length == raw.w_total_length,
        descriptor.configuration_value == raw.b_configuration_value,
        descriptor.configuration_index == raw.i_configuration,
        descriptor.attributes == raw.bm_attributes,
        descriptor.max_power == raw.b_max_power,
        descriptor.interfaces@.len() == crate::descriptors::alt_settings(raw.interfaces@).len(),
        0 <= i < raw.interfaces@.len() && 0 <= j < raw.interfaces@[i].altsettings@.len() ==> {
            let place = crate::descriptors::alt_settings(raw.interfaces@.take(i)).len() + j;
            let setting = raw.interfaces@[i].altsettings@[j];
            let given = descriptor.interfaces@[place];
            &&& place < descriptor.interfaces@.len()
            &&& given.length == setting.b_length
            &&& given.descriptor_type == setting.b_descriptor_type
            &&& given.interface_number == setting.b_interface_number
            &&& given.alternate_setting == setting.b_alternate_setting
            &&& given.interface_class == setting.b_interface_class
            &&& given.interface_subclass == setting.b_interface_sub_class
            &&& given.interface_protocol == setting.b_interface_protocol
            &&& given.interface_index == setting.i_interface
            &&& given.endpoints@.len() == setting.endpoints@.len()
            &&& 0 <= k < setting.endpoints@.len() ==> {
                &&& given.endpoints@[k].length == setting.endpoints@[k].b_length
                &&& given.endpoints@[k].descriptor_type == setting.endpoints@[k].b_descriptor_type
                &&& given.endpoints@[k].endpoint_address == setting.endpoints@[k].b_endpoint_address
                &&& given.endpoints@[k].attributes == setting.endpoints@[k].bm_attributes
                &&& given.endpoints@[k].max_packet_size == setting.endpoints@[k].w_max_packet_size
                &&& given.endpoints@[k].interval == setting.endpoints@[k].b_interval
                &&& given.endpoints@[k].refresh == setting.endpoints@[k].b_refresh
                &&& given.endpoints@[k].synch_address == setting.endpoints@[k].b_synch_address
            }
        },
{
    crate::meanings::law_configuration_descriptor_fields(descriptor, raw, i, j, k);
}

/// `config_descriptor_reply` gives the configuration that was read, field by field, or the error
/// of a negative status.
pub proof fn law_config_descriptor_reply(
    status: i32,
    config: Option<RawConfig>,
    reply: Result<ConfigurationDescriptor, LibusbError>,
)
    requires
        call_ensures(crate::descriptors::config_descriptor_reply, (status, &config), reply),
    ensures
        reply is Ok <==> status >= 0,
        reply is Ok ==> {
            let raw = config->0;
            let descriptor = reply->Ok_0;
            &&& descriptor.describes(raw)
            &&& descriptor.length == raw.b_length
            &&& descriptor.descriptor_type == raw.b_descriptor_type
            &&& descriptor.total_length == raw.w_total_length
            &&& descriptor.configuration_value == raw.b_configuration_value
            &&& descriptor.configuration_index == raw.i_configuration
            &&& descriptor.attributes == raw.bm_attributes
            &&& descriptor.max_power == raw.b_max_power
        },
        reply is Err ==> reply->Err_0 == LibusbError::of_code(status as int),
{
}

// ---- devices ----

/// What an operation asks of libusb on the device that the guest's handle names: this device,
/// and what the guest chose, unchanged.
pub proof fn law_operations_on_a_device(
    usb: WasiUsbCtxView<'_>,
    rep: u32,
    device: usize,
    choice: u8,
    found: Option<usize>,
    call: Option<ConfigCall>,
)
    requires
        usb.entries().contains_pair(rep, Entry::Device(UsbDevice { device })),
    ensures
        call_ensures(WasiUsbCtxView::open, (&usb, rep), found) ==> found == Some(device),
        call_ensures(WasiUsbCtxView::drop_device, (&usb, rep), found) ==> found == Some(device),
        call_ensures(
            WasiUsbCtxView::get_configuration_descriptor,
            (&usb, rep, choice),
            call,
        ) ==> call == Some(ConfigCall::ByIndex { device, index: choice }),
        call_ensures(
            WasiUsbCtxView::get_configuration_descriptor_by_value,
            (&usb, rep, choice),
            call,
        ) ==> call == Some(ConfigCall::ByValue { device, value: choice }),
        call_ensures(
            WasiUsbCtxView::get_active_configuration_descriptor,
            (&usb, rep),
            call,
        ) ==> call == Some(ConfigCall::Active { device }),
{
}

/// An operation on a handle that names no device asks nothing of libusb.
pub proof fn law_operations_without_a_device(
    usb: WasiUsbCtxView<'_>,
    rep: u32,
    choice: u8,
    found: Option<usize>,
    call: Option<ConfigCall>,
)
    requires
        !(usb.entries().contains_key(rep) && usb.entries()[rep] is Device),
    ensures
        call_ensures(WasiUsbCtxView::open, (&usb, rep), found) ==> found is None,
        call_ensures(WasiUsbCtxView::drop_device, (&usb, rep), found) ==> found is None,
        call_ensures(
            WasiUsbCtxView::get_configuration_descriptor,
            (&usb, rep, choice),
            call,
        ) ==> call is None,
        call_ensures(
            WasiUsbCtxView::get_configuration_descriptor_by_value,
            (&usb, rep, choice),
            call,
        ) ==> call is None,
        call_ensures(
            WasiUsbCtxView::get_active_configuration_descriptor,
            (&usb, rep),
            call,
        ) ==> call is None,
{
}

/// The initialisation is needed as long as there is no libusb context, and there are devices to
/// list as soon as there is one.
pub proof fn law_init_and_list_devices(
    usb: WasiUsbCtxView<'_>,
    needed: bool,
    context: Result<usize, LibusbError>,
)
    ensures
        call_ensures(WasiUsbCtxView::init, (&usb,), needed) ==> (needed <==> usb.state().libusb_ctx
            is None),
        call_ensures(WasiUsbCtxView::list_devices, (&usb,), context) ==> {
            &&& context is Ok <==> usb.state().libusb_ctx is Some
            &&& context is Ok ==> context->Ok_0 == usb.state().libusb_ctx->0
            &&& context is Err ==> context->Err_0 == LibusbError::NotFound
        },
{
}

/// Taking the context of libusb: it is kept, with the flag that is given out and that was made
/// with `true` in it, and nothing else changes. A negative status changes nothing.
pub proof fn law_init_reply(
    usb: &mut WasiUsbCtxView<'_>,
    status: i32,
    context: usize,
    reply: Result<Arc<AtomicBool>, LibusbError>,
)
    requires
        call_ensures(WasiUsbCtxView::init_reply, (usb, status, context), reply),
    ensures
        reply is Ok <==> status >= 0,
        reply is Ok ==> {
            &&& final(usb).state().libusb_ctx == Some(context)
            &&& final(usb).state().event_loop_flag == Some(reply->Ok_0)
            &&& call_ensures(AtomicBool::new, (true,), *reply->Ok_0)
        },
        reply is Err ==> {
            &&& reply->Err_0 == LibusbError::of_code(status as int)
            &&& final(usb).state() == old(usb).state()
        },
        final(usb).state().hotplug_enabled == old(usb).state().hotplug_enabled,
        final(usb).state().hotplug_handle == old(usb).state().hotplug_handle,
        final(usb).entries() == old(usb).entries(),
{
}

/// A list of devices: every device that has an address becomes a resource, and the guest is told
/// of those whose descriptors could be read. Each entry is that of one device of the list, with
/// the address, descriptor and location that libusb said of it.
pub proof fn law_list_devices_reply(
    usb: &mut WasiUsbCtxView<'_>,
    count: i64,
    probes: Vec<DeviceProbe>,
    reply: Result<Vec<ListedDevice>, LibusbError>,
    n: int,
    rep: u32,
)
    requires
        call_ensures(WasiUsbCtxView::list_devices_reply, (usb, count, &probes), reply),
    ensures
        count < 0 ==> reply is Err,
        count < 0 && count >= i32::MIN ==> reply->Err_0 == LibusbError::of_code(count as int),
        reply is Err && count >= 0 ==> reply->Err_0 == LibusbError::Other,
        count < 0 ==> final(usb).entries() == old(usb).entries(),
        count >= 0 && old(usb).entries().dom().len() + probes@.filter(
            |p: DeviceProbe| p.device != 0,
        ).len() <= old(usb).capacity() && old(usb).entries().dom().len() + probes@.filter(
            |p: DeviceProbe| p.device != 0,
        ).len() <= 0x1_0000_0000 ==> reply is Ok,
        old(usb).entries().contains_key(rep) ==> final(usb).entries().contains_pair(
            rep,
            old(usb).entries()[rep],
        ),
        final(usb).state() == old(usb).state(),
        reply is Ok && 0 <= n < reply->Ok_0@.len() ==> exists|i: int|
            {
                let told = reply->Ok_0@[n];
                &&& 0 <= i < probes@.len()
                &&& (#[trigger] probes@[i]).device != 0
                &&& probes@[i].status >= 0
                &&& !old(usb).entries().contains_key(told.0)
                &&& final(usb).entries().contains_pair(
                    told.0,
                    Entry::Device(UsbDevice { device: probes@[i].device }),
                )
                &&& told.1.length == probes@[i].descriptor.b_length
                &&& told.1.descriptor_type == probes@[i].descriptor.b_descriptor_type
                &&& told.1.usb_version_bcd == probes@[i].descriptor.bcd_usb
                &&& told.1.device_class == probes@[i].descriptor.b_device_class
                &&& told.1.device_subclass == probes@[i].descriptor.b_device_sub_class
                &&& told.1.device_protocol == probes@[i].descriptor.b_device_protocol
                &&& told.1.max_packet_size0 == probes@[i].descriptor.b_max_packet_size0
                &&& told.1.vendor_id == probes@[i].descriptor.id_vendor
                &&& told.1.product_id == probes@[i].descriptor.id_product
                &&& told.1.device_version_bcd == probes@[i].descriptor.bcd_device
                &&& told.1.manufacturer_index == probes@[i].descriptor.i_manufacturer
                &&& told.1.product_index == probes@[i].descriptor.i_product
                &&& told.1.serial_number_index == probes@[i].descriptor.i_serial_number
                &&& told.1.num_configurations == probes@[i].descriptor.b_num_configurations
                &&& told.2.bus_number == probes@[i].bus_number
                &&& told.2.device_address == probes@[i].device_address
                &&& told.2.port_number == probes@[i].port_number
                &&& told.2.speed == UsbSpeed::Low <==> probes@[i].speed % 256 == 1
                &&& told.2.speed == UsbSpeed::Full <==> probes@[i].speed % 256 == 2
                &&& told.2.speed == UsbSpeed::High <==> probes@[i].speed % 256 == 3
                &&& told.2.speed == UsbSpeed::Super <==> probes@[i].speed % 256 == 4
                &&& told.2.speed == UsbSpeed::SuperPlus <==> probes@[i].speed % 256 == 5
                &&& told.2.speed == UsbSpeed::SuperPlusX2 <==> probes@[i].speed % 256 == 6
            },
{
    let devices = crate::device::present(probes@);
    crate::meanings::law_which_devices_are_there(probes@);
    if count < 0 {
        crate::meanings::law_signed_numbers(0, count as int);
    } else {
        if old(usb).entries().contains_key(rep) {
            let reps = choose|reps: Seq<u32>| #[trigger]
                crate::table::devices_added(
                    old(usb).entries(),
                    final(usb).entries(),
                    crate::device::addresses(devices),
                    reps,
                );
            assert(final(usb).entries()[rep] == old(usb).entries()[rep]);
        }
        if reply is Ok && 0 <= n < reply->Ok_0@.len() {
            let reps = choose|reps: Seq<u32>|
                {
                    &&& reps.len() == devices.len()
                    &&& #[trigger] crate::table::devices_added(
                        old(usb).entries(),
                        final(usb).entries(),
                        crate::device::addresses(devices),
                        reps,
                    )
                    &&& reply->Ok_0@ == crate::device::listing(devices, reps)
                };
            let k = crate::laws::lemma_listed_from(devices, reps, n);
            crate::meanings::law_what_is_told_of_a_device(devices[k], reps[k]);
            crate::meanings::law_addresses_of_devices(devices, k);
            crate::meanings::law_which_slots_are_filled(
                old(usb).entries(),
                final(usb).entries(),
                crate::device::addresses(devices),
                reps,
                k,
                k,
                reps[k],
            );
            let i = lemma_present_from(probes@, k);
            assert(probes@[i] == devices[k]);
        }
    }
}

/// The device of a list that is device `k` of those with an address.
proof fn lemma_present_from(probes: Seq<DeviceProbe>, k: int) -> (i: int)
    requires
        0 <= k < crate::device::present(probes).len(),
    ensures
        0 <= i < probes.len(),
        probes[i] == crate::device::present(probes)[k],
        probes[i].device != 0,
    decreases probes.len(),
{
    let front = crate::device::present(probes.drop_last());
    if probes.last().device != 0 && k == front.len() {
        probes.len() - 1
    } else {
        lemma_present_from(probes.drop_last(), k)
    }
}

/// Every device of a list that has an address and a readable descriptor is told of.
pub proof fn law_list_devices_reply_leaves_none_out(
    usb: &mut WasiUsbCtxView<'_>,
    count: i64,
    probes: Vec<DeviceProbe>,
    reply: Result<Vec<ListedDevice>, LibusbError>,
)
    requires
        call_ensures(WasiUsbCtxView::list_devices_reply, (usb, count, &probes), reply),
        count >= 0,
        reply is Ok,
    ensures
        reply->Ok_0@.len() == probes@.filter(
            |p: DeviceProbe| p.device != 0 && p.status >= 0,
        ).len(),
        forall|n: int|
            0 <= n < reply->Ok_0@.len() ==> (#[trigger] reply->Ok_0@[n]).1.vendor_id
                == probes@.filter(
                |p: DeviceProbe| p.device != 0 && p.status >= 0,
            )[n].descriptor.id_vendor,
        forall|n: int|
            0 <= n < reply->Ok_0@.len() ==> (#[trigger] reply->Ok_0@[n]).2.device_address
                == probes@.filter(
                |p: DeviceProbe| p.device != 0 && p.status >= 0,
            )[n].device_address,
        forall|n: int|
            0 <= n < reply->Ok_0@.len() ==> #[trigger] reply->Ok_0@[n] == probes@.filter(
                |p: DeviceProbe| p.device != 0 && p.status >= 0,
            )[n].listed(reply->Ok_0@[n].0),
{
    let devices = crate::device::present(probes@);
    let reps = choose|reps: Seq<u32>|
        {
            &&& reps.len() == devices.len()
            &&& #[trigger] crate::table::devices_added(
                old(usb).entries(),
                final(usb).entries(),
                crate::device::addresses(devices),
                reps,
            )
            &&& reply->Ok_0@ == crate::device::listing(devices, reps)
        };
    lemma_listing_is_that_of_the_readable(probes@, reps);
}

/// A listing tells of the readable devices of a list, in their order.
proof fn lemma_listing_is_that_of_the_readable(probes: Seq<DeviceProbe>, reps: Seq<u32>)
    ensures
        ({
            let told = crate::device::listing(crate::device::present(probes), reps);
            let readable = probes.filter(|p: DeviceProbe| p.device != 0 && p.status >= 0);
            &&& told.len() == readable.len()
            &&& forall|n: int|
                0 <= n < told.len() ==> {
                    &&& (#[trigger] told[n]).1.vendor_id == readable[n].descriptor.id_vendor
                    &&& told[n].2.device_address == readable[n].device_address
                    &&& told[n] == readable[n].listed(told[n].0)
                }
        }),
    decreases probes.len(),
{
    reveal(Seq::filter);
    if probes.len() > 0 {
        lemma_listing_is_that_of_the_readable(probes.drop_last(), reps);
        if probes.last().device != 0 {
            assert(crate::device::present(probes).drop_last() =~= crate::device::present(
                probes.drop_last(),
            ));
        }
    }
}

/// An opened device becomes a resource in a slot that was free, under the address that libusb
/// gave, and nothing else changes. A negative status changes nothing.
pub proof fn law_open_reply(
    usb: &mut WasiUsbCtxView<'_>,
    status: i32,
    handle: usize,
    reply: Result<u32, LibusbError>,
    other: u32,
)
    requires
        call_ensures(WasiUsbCtxView::open_reply, (usb, status, handle), reply),
    ensures
        status < 0 ==> reply is Err && reply->Err_0 == LibusbError::of_code(status as int),
        status >= 0 && reply is Err ==> reply->Err_0 == LibusbError::Other,
        status >= 0 && old(usb).entries().dom().len() < old(usb).capacity()
            && old(usb).entries().dom().len() < 0x1_0000_0000 ==> reply is Ok,
        reply is Ok ==> {
            &&& !old(usb).entries().contains_key(reply->Ok_0)
            &&& final(usb).entries().contains_pair(
                reply->Ok_0,
                Entry::Handle(UsbDeviceHandle { handle }),
            )
        },
        reply is Err || other != reply->Ok_0 ==> {
            &&& final(usb).entries().contains_key(other) == old(usb).entries().contains_key(other)
            &&& final(usb).entries()[other] == old(usb).entries()[other]
        },
        final(usb).state() == old(usb).state(),
{
}

// ---- open devices ----

/// What an operation asks of libusb on the open device that the guest's handle names: this
/// device, and what the guest chose, unchanged.
pub proof fn law_operations_on_an_open_device(
    usb: WasiUsbCtxView<'_>,
    rep: u32,
    handle: usize,
    config: ConfigValue,
    ifac: u8,
    other: u8,
    owned: bool,
    found: Option<usize>,
    call: Option<StatusCall>,
)
    requires
        usb.entries().contains_pair(rep, Entry::Handle(UsbDeviceHandle { handle })),
    ensures
        call_ensures(WasiUsbCtxView::get_configuration, (&usb, rep), found) ==> found == Some(
            handle,
        ),
        call_ensures(WasiUsbCtxView::close, (&usb, rep, owned), found) ==> found == if owned {
            None
        } else {
            Some(handle)
        },
        call_ensures(WasiUsbCtxView::drop_handle, (&usb, rep, owned), found) ==> found == if owned {
            None
        } else {
            Some(handle)
        },
        call_ensures(WasiUsbCtxView::set_configuration, (&usb, rep, config), call) ==> call == Some(
            StatusCall::SetConfiguration {
                handle,
                configuration: match config {
                    ConfigValue::Value(value) => value as i32,
                    ConfigValue::Unconfigured => 0,
                },
            },
        ),
        call_ensures(WasiUsbCtxView::claim_interface, (&usb, rep, ifac), call) ==> call == Some(
            StatusCall::ClaimInterface { handle, interface: ifac as i32 },
        ),
        call_ensures(WasiUsbCtxView::release_interface, (&usb, rep, ifac), call) ==> call == Some(
            StatusCall::ReleaseInterface { handle, interface: ifac as i32 },
        ),
        call_ensures(
            WasiUsbCtxView::set_interface_altsetting,
            (&usb, rep, ifac, other),
            call,
        ) ==> call == Some(
            StatusCall::SetInterfaceAltSetting {
                handle,
                interface: ifac as i32,
                alt_setting: other as i32,
            },
        ),
        call_ensures(WasiUsbCtxView::clear_halt, (&usb, rep, other), call) ==> call == Some(
            StatusCall::ClearHalt { handle, endpoint: other },
        ),
        call_ensures(WasiUsbCtxView::reset_device, (&usb, rep), call) ==> call == Some(
            StatusCall::ResetDevice { handle },
        ),
        call_ensures(
            WasiUsbCtxView::kernel_driver_active,
            (&usb, rep, ifac),
            call,
        ) ==> call == Some(
            StatusCall::KernelDriverActive { handle, interface: ifac as i32 },
        ),
        call_ensures(
            WasiUsbCtxView::detach_kernel_driver,
            (&usb, rep, ifac),
            call,
        ) ==> call == Some(
            StatusCall::DetachKernelDriver { handle, interface: ifac as i32 },
        ),
        call_ensures(
            WasiUsbCtxView::attach_kernel_driver,
            (&usb, rep, ifac),
            call,
        ) ==> call == Some(
            StatusCall::AttachKernelDriver { handle, interface: ifac as i32 },
        ),
{
}

/// An operation on a handle that names no open device asks nothing of libusb.
pub proof fn law_operations_without_an_open_device(
    usb: WasiUsbCtxView<'_>,
    rep: u32,
    config: ConfigValue,
    ifac: u8,
    other: u8,
    owned: bool,
    found: Option<usize>,
    call: Option<StatusCall>,
)
    requires
        !(usb.entries().contains_key(rep) && usb.entries()[rep] is Handle),
    ensures
        call_ensures(WasiUsbCtxView::get_configuration, (&usb, rep), found) ==> found is None,
        call_ensures(WasiUsbCtxView::close, (&usb, rep, owned), found) ==> found is None,
        call_ensures(WasiUsbCtxView::drop_handle, (&usb, rep, owned), found) ==> found is None,
        call_ensures(WasiUsbCtxView::set_configuration, (&usb, rep, config), call) ==> call is None,
        call_ensures(WasiUsbCtxView::claim_interface, (&usb, rep, ifac), call) ==> call is None,
        call_ensures(WasiUsbCtxView::release_interface, (&usb, rep, ifac), call) ==> call is None,
        call_ensures(
            WasiUsbCtxView::set_interface_altsetting,
            (&usb, rep, ifac, other),
            call,
        ) ==> call is None,
        call_ensures(WasiUsbCtxView::clear_halt, (&usb, rep, other), call) ==> call is None,
        call_ensures(WasiUsbCtxView::reset_device, (&usb, rep), call) ==> call is None,
        call_ensures(
            WasiUsbCtxView::kernel_driver_active,
            (&usb, rep, ifac),
            call,
        ) ==> call is None,
        call_ensures(
            WasiUsbCtxView::detach_kernel_driver,
            (&usb, rep, ifac),
            call,
        ) ==> call is None,
        call_ensures(
            WasiUsbCtxView::attach_kernel_driver,
            (&usb, rep, ifac),
            call,
        ) ==> call is None,
{
}

/// Streams are asked for on the open device that the guest's handle names, in the number and on
/// the endpoints that the guest chose.
pub proof fn law_streams(
    usb: WasiUsbCtxView<'_>,
    rep: u32,
    handle: usize,
    num_streams: u32,
    endpoints: Vec<u8>,
    call: Option<StatusCall>,
)
    ensures
        call_ensures(WasiUsbCtxView::alloc_streams, (&usb, rep, num_streams, endpoints), call)
            || call_ensures(WasiUsbCtxView::free_streams, (&usb, rep, endpoints), call) ==> (call
            is None <==> !(usb.entries().contains_key(rep) && usb.entries()[rep] is Handle)),
        call_ensures(WasiUsbCtxView::alloc_streams, (&usb, rep, num_streams, endpoints), call)
            && usb.entries().contains_pair(rep, Entry::Handle(UsbDeviceHandle { handle })) ==> {
            &&& call is Some
            &&& call->0 is AllocStreams
            &&& call->0->AllocStreams_handle == handle
            &&& call->0->num_streams == num_streams
            &&& call->0->AllocStreams_endpoints@ == endpoints@
            &&& endpoints@.len() <= 0x7fff_ffff ==> call->0->AllocStreams_num_endpoints
                == endpoints@.len()
            &&& (endpoints@.len() - call->0->AllocStreams_num_endpoints) % 0x1_0000_0000 == 0
        },
        call_ensures(WasiUsbCtxView::free_streams, (&usb, rep, endpoints), call)
            && usb.entries().contains_pair(rep, Entry::Handle(UsbDeviceHandle { handle })) ==> {
            &&& call is Some
            &&& call->0 is FreeStreams
            &&& call->0->FreeStreams_handle == handle
            &&& call->0->FreeStreams_endpoints@ == endpoints@
            &&& endpoints@.len() <= 0x7fff_ffff ==> call->0->FreeStreams_num_endpoints
                == endpoints@.len()
            &&& (endpoints@.len() - call->0->FreeStreams_num_endpoints) % 0x1_0000_0000 == 0
        },
{
    crate::meanings::law_signed_numbers(0, endpoints@.len() as int);
}

/// The answers on the configuration and the kernel driver: the low byte of the configuration,
/// and whether the status is positive; the error of a negative status.
pub proof fn law_answers_of_an_open_device(
    status: i32,
    configuration: i32,
    value: Result<u8, LibusbError>,
    active: Result<bool, LibusbError>,
)
    ensures
        call_ensures(crate::handle::get_configuration_reply, (status, configuration), value) ==> {
            &&& value is Ok <==> status >= 0
            &&& value is Ok ==> (configuration - value->Ok_0) % 256 == 0
            &&& value is Ok && 0 <= configuration <= 255 ==> value->Ok_0 == configuration
            &&& value is Err ==> value->Err_0 == LibusbError::of_code(status as int)
        },
        call_ensures(crate::handle::kernel_driver_active_reply, (status,), active) ==> {
            &&& active is Ok <==> status >= 0
            &&& active is Ok ==> (active->Ok_0 <==> status > 0)
            &&& active is Err ==> active->Err_0 == LibusbError::of_code(status as int)
        },
{
}

/// Closing removes the resource of the open device, unless it has children, and no other.
pub proof fn law_close_reply(usb: &mut WasiUsbCtxView<'_>, rep: u32, removed: bool, other: u32)
    requires
        call_ensures(WasiUsbCtxView::close_reply, (usb, rep), removed),
    ensures
        removed <==> old(usb).entries().contains_key(rep) && old(usb).entries()[rep] is Handle
            && !old(usb).parents().contains(rep),
        removed ==> !final(usb).entries().contains_key(rep),
        old(usb).parents().contains(rep) || other != rep ==> {
            &&& final(usb).entries().contains_key(other) == old(usb).entries().contains_key(other)
            &&& final(usb).entries().contains_key(other) ==> final(usb).entries()[other]
                == old(usb).entries()[other]
        },
        final(usb).state() == old(usb).state(),
{
}

// ---- transfers ----

/// A transfer is requested on the open device that the guest's handle names, as the guest
/// chose it.
pub proof fn law_new_transfer_call(
    usb: WasiUsbCtxView<'_>,
    rep: u32,
    handle: usize,
    xfer_type: TransferType,
    setup: TransferSetup,
    buf_size: u32,
    opts: TransferOptions,
    request: Option<TransferRequest>,
)
    requires
        call_ensures(
            WasiUsbCtxView::new_transfer,
            (&usb, rep, xfer_type, setup, buf_size, opts),
            request,
        ),
    ensures
        request is None <==> !(usb.entries().contains_key(rep) && usb.entries()[rep] is Handle),
        usb.entries().contains_pair(rep, Entry::Handle(UsbDeviceHandle { handle })) ==> {
            &&& request is Some
            &&& request->0.dev_handle == handle
            &&& request->0.xfer_type == xfer_type
            &&& request->0.setup == setup
            &&& request->0.buf_size == buf_size
            &&& request->0.opts == opts
        },
{
}

/// The sizes that a request comes to.
pub proof fn law_request_sizes(request: TransferRequest, count: i32, fits: bool)
    ensures
        call_ensures(TransferRequest::iso_packets, (&request,), count) ==> {
            &&& !(request.xfer_type is Isochronous) ==> count == 0
            &&& request.xfer_type is Isochronous ==> (request.opts.iso_packets - count)
                % 0x1_0000_0000 == 0
            &&& request.xfer_type is Isochronous && request.opts.iso_packets <= 0x7fff_ffff
                ==> count == request.opts.iso_packets
        },
        call_ensures(TransferRequest::fits, (&request,), fits) ==> (fits <==> !(request.xfer_type
            is Control) || request.buf_size + 8 <= 0xffff_ffff),
{
    crate::meanings::law_sizes_of_a_request(request);
}

/// A transfer that libusb reserved is worked out as the guest requested it: what is written into
/// it, and its buffer, byte by byte.
pub proof fn law_allocated(
    request: TransferRequest,
    transfer: usize,
    plan: Result<TransferPlan, LibusbError>,
    i: int,
)
    requires
        request.fits_spec(),
        call_ensures(TransferRequest::allocated, (request, transfer), plan),
    ensures
        plan is Ok <==> transfer != 0,
        plan is Err ==> plan->Err_0 == LibusbError::NoMem,
        plan is Ok ==> {
            let fields = plan->Ok_0.fields_spec();
            let bytes = plan->Ok_0.outcome().buffer->0;
            &&& fields.dev_handle == request.dev_handle
            &&& fields.endpoint == request.opts.endpoint
            &&& fields.timeout == request.opts.timeout_ms
            &&& fields.stream_id is Some <==> request.opts.stream_id != 0
            &&& fields.stream_id is Some ==> fields.stream_id->0 == request.opts.stream_id
            &&& fields.transfer_type == 0 <==> request.xfer_type is Control
            &&& fields.transfer_type == 1 <==> request.xfer_type is Isochronous
            &&& fields.transfer_type == 2 <==> request.xfer_type is Bulk
            &&& fields.transfer_type == 3 <==> request.xfer_type is Interrupt
            &&& bytes.len() <= 0x7fff_ffff ==> fields.length == bytes.len()
            &&& (bytes.len() - fields.length) % 0x1_0000_0000 == 0
            &&& plan->Ok_0.outcome().transfer == transfer
            &&& plan->Ok_0.outcome().buffer is Some
            &&& plan->Ok_0.outcome().buf_len == request.buf_size
            &&& request.xfer_type is Control ==> {
                &&& bytes.len() == 8 + request.buf_size
                &&& bytes[0] == request.setup.bm_request_type
                &&& bytes[1] == request.setup.b_request
                &&& bytes[2] + 256 * bytes[3] == request.setup.w_value
                &&& bytes[4] + 256 * bytes[5] == request.setup.w_index
                &&& bytes[6] + 256 * bytes[7] == request.buf_size % 65536
                &&& 8 <= i < bytes.len() ==> bytes[i] == 0
            }
            &&& !(request.xfer_type is Control) ==> {
                &&& bytes.len() == request.buf_size
                &&& 0 <= i < bytes.len() ==> bytes[i] == 0
            }
        },
        plan is Ok && request.xfer_type is Isochronous && 0 < request.opts.iso_packets
            <= 0x7fff_ffff ==> {
            let lengths = plan->Ok_0.fields_spec().iso_packet_lengths@;
            &&& lengths.len() == request.opts.iso_packets
            &&& crate::packets::sum(lengths) == request.buf_size
            &&& 0 <= i < lengths.len() - 1 ==> lengths.len() * lengths[i] <= request.buf_size
                < lengths.len() * (lengths[i] + 1)
        },
        plan is Ok && !(request.xfer_type is Isochronous)
            ==> plan->Ok_0.fields_spec().iso_packet_lengths@.len() == 0,
{
    if plan is Ok {
        crate::meanings::law_reserved_transfer(plan->Ok_0, request, transfer, i);
        if request.xfer_type is Control {
            crate::meanings::law_new_control_buffer(request, i);
        } else {
            crate::meanings::law_new_data_buffer(request, i);
        }
    }
}

/// What can be read of a worked-out transfer, and what the guest gets of it.
pub proof fn law_reading_a_plan(
    plan: TransferPlan,
    fields: &TransferFields,
    buffer: &Vec<u8>,
    transfer: UsbTransfer,
    address: usize,
)
    ensures
        call_ensures(TransferPlan::fields, (&plan,), fields) ==> *fields == plan.fields_spec(),
        call_ensures(TransferPlan::buffer, (&plan,), buffer) ==> plan.outcome().buffer == Some(
            buffer@,
        ),
        call_ensures(TransferPlan::into_transfer, (plan,), transfer) ==> {
            &&& transfer@ == plan.outcome()
            &&& call_ensures(AtomicBool::new, (false,), *transfer@.completed)
        },
        call_ensures(UsbTransfer::transfer, (&transfer,), address) ==> address
            == transfer@.transfer,
{
}

/// A worked-out transfer becomes a resource in a slot that was free, as it is, and nothing else
/// changes.
pub proof fn law_new_transfer_reply(
    usb: &mut WasiUsbCtxView<'_>,
    plan: TransferPlan,
    reply: Result<u32, LibusbError>,
    other: u32,
)
    requires
        call_ensures(WasiUsbCtxView::new_transfer_reply, (usb, plan), reply),
    ensures
        reply is Err ==> reply->Err_0 == LibusbError::Other,
        old(usb).entries().dom().len() < old(usb).capacity() && old(usb).entries().dom().len()
            < 0x1_0000_0000 ==> reply is Ok,
        reply is Ok ==> {
            &&& !old(usb).entries().contains_key(reply->Ok_0)
            &&& final(usb).entries().contains_key(reply->Ok_0)
            &&& final(usb).entries()[reply->Ok_0] is Transfer
            &&& final(usb).entries()[reply->Ok_0]->Transfer_0@ == plan.outcome()
            &&& call_ensures(
                AtomicBool::new,
                (false,),
                *final(usb).entries()[reply->Ok_0]->Transfer_0@.completed,
            )
        },
        reply is Err || other != reply->Ok_0 ==> {
            &&& final(usb).entries().contains_key(other) == old(usb).entries().contains_key(other)
            &&& final(usb).entries()[other] == old(usb).entries()[other]
        },
        final(usb).state() == old(usb).state(),
{
}

/// Preparing a submission, byte by byte: the guest's data go behind the setup packet, or into
/// the whole buffer, where the top bit of the direction is clear; else the bytes stay. Data of
/// the wrong length are refused where the host sends, and a transfer that is over is refused in
/// any case.
pub proof fn law_prepare(
    transfer: &mut UsbTransfer,
    completed: bool,
    data: Vec<u8>,
    step: SubmitStep,
    i: int,
)
    requires
        call_ensures(UsbTransfer::prepare, (transfer, completed, &data), step),
    ensures
        ({
            let before = old(transfer)@;
            let direction = if before.transfer_type == 0 {
                before.control_setup->0.bm_request_type
            } else {
                before.endpoint
            };
            let offset = if before.transfer_type == 0 {
                8int
            } else {
                0
            };
            let out = direction & 0x80 == 0;
            &&& step == SubmitStep::Refused(LibusbError::Busy) <==> completed
            &&& step == SubmitStep::Refused(LibusbError::InvalidParam) <==> !completed && out
                && data@.len() != before.buf_len
            &&& step is NoBuffer <==> !completed && (out ==> data@.len() == before.buf_len)
                && before.buffer is None
            &&& step is Submit <==> !completed && (out ==> data@.len() == before.buf_len)
                && before.buffer is Some
            &&& step is Submit ==> {
                let bytes = before.buffer->0;
                let submitted = step->context.bytes();
                &&& step->transfer == before.transfer
                &&& step->context.flag() == before.completed
                &&& step->receiver == crate::channel::other_half(step->context.destination())
                &&& submitted.len() == bytes.len()
                &&& submitted.len() == offset + before.buf_len
                &&& 0 <= i < offset ==> submitted[i] == bytes[i]
                &&& out && offset <= i < submitted.len() ==> submitted[i] == data@[i - offset]
                &&& !out && 0 <= i < submitted.len() ==> submitted[i] == bytes[i]
                &&& final(transfer)@.buffer is None
                &&& final(transfer)@.receiver == before.receiver
                &&& final(transfer)@.transfer == before.transfer
                &&& final(transfer)@.completed == before.completed
                &&& final(transfer)@.buf_len == before.buf_len
            }
            &&& !(step is Submit) ==> *final(transfer) == *old(transfer)
        }),
{
    let before = old(transfer)@;
    crate::meanings::law_when_a_transfer_is_submitted(before, completed, data@);
    if before.verdict(completed, data@) is Submit {
        crate::meanings::law_what_is_submitted(before, data@, i);
    }
}

/// A submission is prepared on the transfer that the guest's handle names and on no other
/// resource, by what its flag reads as.
pub proof fn law_submit_transfer(
    usb: &mut WasiUsbCtxView<'_>,
    rep: u32,
    data: Vec<u8>,
    step: SubmitStep,
    other: u32,
)
    requires
        call_ensures(WasiUsbCtxView::submit_transfer, (usb, rep, &data), step),
    ensures
        step is NoTransfer <==> !(old(usb).entries().contains_key(rep) && old(usb).entries()[rep]
            is Transfer),
        step is NoTransfer ==> final(usb).entries() == old(usb).entries(),
        other != rep ==> {
            &&& final(usb).entries().contains_key(other) == old(usb).entries().contains_key(other)
            &&& final(usb).entries()[other] == old(usb).entries()[other]
        },
        !(step is NoTransfer) ==> {
            let before = old(usb).entries()[rep]->Transfer_0;
            let after = final(usb).entries()[rep]->Transfer_0;
            let busy = step == SubmitStep::Refused(LibusbError::Busy);
            &&& final(usb).entries().contains_key(rep) && final(usb).entries()[rep] is Transfer
            &&& call_ensures(
                AtomicBool::load,
                (&*before@.completed, Ordering::SeqCst),
                busy,
            )
            &&& step.follows(before, busy, data@, after)
        },
        final(usb).state() == old(usb).state(),
{
    if !(step is NoTransfer) {
        let before = old(usb).entries()[rep]->Transfer_0;
        assert(before@.verdict(true, data@) == crate::transfers::Verdict::Refuse(
            LibusbError::Busy,
        ));
        assert(before@.verdict(false, data@) != crate::transfers::Verdict::Refuse(
            LibusbError::Busy,
        ));
    }
}

/// A submission that libusb accepted keeps its receiver with the transfer; one that failed gives
/// its error and changes nothing.
pub proof fn law_submit_reply(
    usb: &mut WasiUsbCtxView<'_>,
    rep: u32,
    status: i32,
    receiver: oneshot::Receiver<TransferResult>,
    reply: Option<Result<(), LibusbError>>,
    other: u32,
)
    requires
        call_ensures(WasiUsbCtxView::submit_reply, (usb, rep, status, receiver), reply),
    ensures
        status < 0 ==> {
            &&& reply == Some(Err::<(), LibusbError>(LibusbError::of_code(status as int)))
            &&& final(usb).entries() == old(usb).entries()
        },
        status >= 0 ==> (reply is None <==> !(old(usb).entries().contains_key(rep)
            && old(usb).entries()[rep] is Transfer)),
        status >= 0 && reply is Some ==> {
            let before = old(usb).entries()[rep]->Transfer_0@;
            let after = final(usb).entries()[rep]->Transfer_0@;
            &&& reply->0 is Ok
            &&& final(usb).entries().contains_key(rep) && final(usb).entries()[rep] is Transfer
            &&& after.receiver == Some(receiver)
            &&& after.buffer == before.buffer
            &&& after.transfer == before.transfer
            &&& after.transfer_type == before.transfer_type
            &&& after.endpoint == before.endpoint
            &&& after.completed == before.completed
            &&& after.buf_len == before.buf_len
            &&& after.control_setup == before.control_setup
        },
        other != rep ==> {
            &&& final(usb).entries().contains_key(other) == old(usb).entries().contains_key(other)
            &&& final(usb).entries()[other] == old(usb).entries()[other]
        },
        final(usb).state() == old(usb).state(),
{
}

/// A cancellation is for the transfer that the guest's handle names, and only where its flag
/// reads as not over.
pub proof fn law_cancel_and_drop(
    usb: WasiUsbCtxView<'_>,
    rep: u32,
    step: CancelStep,
    address: Option<usize>,
    transfer: UsbTransfer,
    completed: bool,
)
    ensures
        call_ensures(UsbTransfer::to_cancel, (&transfer, completed), address) ==> {
            &&& address is None <==> completed
            &&& address is Some ==> address->0 == transfer@.transfer
        },
        call_ensures(WasiUsbCtxView::cancel_transfer, (&usb, rep), step) ==> (step is NoTransfer
            <==> !(usb.entries().contains_key(rep) && usb.entries()[rep] is Transfer)),
        call_ensures(WasiUsbCtxView::cancel_transfer, (&usb, rep), step) && !(step is NoTransfer)
            ==> call_ensures(
            AtomicBool::load,
            (&*usb.entries()[rep]->Transfer_0@.completed, Ordering::SeqCst),
            step is AlreadyOver,
        ),
        call_ensures(WasiUsbCtxView::cancel_transfer, (&usb, rep), step) && step is Cancel
            ==> step->transfer == usb.entries()[rep]->Transfer_0@.transfer,
        call_ensures(WasiUsbCtxView::drop_transfer, (&usb, rep), address) && address is Some ==> {
            &&& usb.entries().contains_key(rep) && usb.entries()[rep] is Transfer
            &&& address->0 == usb.entries()[rep]->Transfer_0@.transfer
        },
        call_ensures(WasiUsbCtxView::drop_transfer, (&usb, rep), address)
            && usb.entries().contains_key(rep) && usb.entries()[rep] is Transfer ==> call_ensures(
            AtomicBool::load,
            (&*usb.entries()[rep]->Transfer_0@.completed, Ordering::SeqCst),
            address is None,
        ),
{
}

/// A wait takes the receiver of the transfer that the guest's handle names, once, and changes
/// nothing else.
pub proof fn law_await_transfer(
    usb: &mut WasiUsbCtxView<'_>,
    rep: u32,
    reply: Option<Result<oneshot::Receiver<TransferResult>, LibusbError>>,
    other: u32,
)
    requires
        call_ensures(WasiUsbCtxView::await_transfer, (usb, rep), reply),
    ensures
        reply is None <==> !(old(usb).entries().contains_key(rep) && old(usb).entries()[rep]
            is Transfer),
        reply is Some ==> {
            let before = old(usb).entries()[rep]->Transfer_0@;
            let after = final(usb).entries()[rep]->Transfer_0@;
            &&& reply->0 is Ok <==> before.receiver is Some
            &&& reply->0 is Ok ==> reply->0->Ok_0 == before.receiver->0
            &&& reply->0 is Err ==> reply->0->Err_0 == LibusbError::NotFound
            &&& final(usb).entries().contains_key(rep) && final(usb).entries()[rep] is Transfer
            &&& after.receiver is None
            &&& after.buffer == before.buffer
            &&& after.transfer == before.transfer
            &&& after.completed == before.completed
            &&& after.buf_len == before.buf_len
        },
        other != rep || reply is None ==> {
            &&& final(usb).entries().contains_key(other) == old(usb).entries().contains_key(other)
            &&& final(usb).entries()[other] == old(usb).entries()[other]
        },
        final(usb).state() == old(usb).state(),
{
}

/// A wait gives the message that came, as it is, and `Interrupted` where none came; the transfer
/// is removed, unless it has children, and no other resource is.
pub proof fn law_await_reply(
    usb: &mut WasiUsbCtxView<'_>,
    rep: u32,
    message: Option<TransferResult>,
    result: TransferResult,
    other: u32,
)
    requires
        call_ensures(WasiUsbCtxView::await_reply, (usb, rep, message), result),
    ensures
        message is Some ==> result == message->0,
        message is None ==> result is Err && result->Err_0 == LibusbError::Interrupted,
        !old(usb).parents().contains(rep) ==> !final(usb).entries().contains_key(rep),
        old(usb).parents().contains(rep) || other != rep ==> {
            &&& final(usb).entries().contains_key(other) == old(usb).entries().contains_key(other)
            &&& final(usb).entries().contains_key(other) ==> final(usb).entries()[other]
                == old(usb).entries()[other]
        },
        final(usb).state() == old(usb).state(),
{
}

// ---- results ----

/// When a report fits, and what it gives for a buffer: the error of its status, or, where it
/// completed, the bytes that the device sent.
pub proof fn law_report(
    report: TransferReport,
    buffer: Vec<u8>,
    fits: bool,
    result: TransferResult,
    k: int,
)
    ensures
        call_ensures(TransferReport::fits, (&report, &buffer), fits) && report.status == 0
            && report.iso_actual_lengths@.len() == 0 && report.transfer_type == 0 ==> (fits <==> {
            &&& buffer@.len() > 0
            &&& buffer@[0] & 0x80 == 0 || report.actual_length == 0 || (0 < report.actual_length
                && 8 + report.actual_length <= buffer@.len())
        }),
        call_ensures(TransferReport::fits, (&report, &buffer), fits) && report.status == 0
            && report.iso_actual_lengths@.len() == 0 && report.transfer_type != 0 ==> (fits
            <==> report.endpoint & 0x80 == 0 || report.actual_length == 0 || (0
            < report.actual_length <= buffer@.len())),
        call_ensures(TransferReport::fits, (&report, &buffer), fits) && report.status != 0 ==> fits,
        call_ensures(TransferReport::fits, (&report, &buffer), fits) && report.status == 0
            && report.iso_actual_lengths@.len() > 0 ==> (fits <==> {
            &&& report.iso_lengths@.len() == report.iso_actual_lengths@.len()
            &&& forall|i: int|
                0 <= i < report.iso_actual_lengths@.len() ==> crate::packets::sum(
                    report.iso_lengths@.take(i),
                ) + #[trigger] report.iso_actual_lengths@[i] <= buffer@.len()
        }),
        call_ensures(TransferReport::result, (&report, &buffer), result) ==> {
            &&& result is Ok <==> report.status == 0
            &&& result is Err ==> {
                &&& result->Err_0 == LibusbError::Io <==> report.status == 1
                &&& result->Err_0 == LibusbError::Timeout <==> report.status == 2
                &&& result->Err_0 == LibusbError::Interrupted <==> report.status == 3
                &&& result->Err_0 == LibusbError::Pipe <==> report.status == 4
                &&& result->Err_0 == LibusbError::NoDevice <==> report.status == 5
                &&& result->Err_0 == LibusbError::Overflow <==> report.status == 6
                &&& result->Err_0 == LibusbError::Other <==> report.status < 0 || report.status > 6
            }
        },
        call_ensures(TransferReport::result, (&report, &buffer), result) && result is Ok
            && report.fits_spec(buffer@) && report.iso_actual_lengths@.len() == 0 ==> {
            let direction = if report.transfer_type == 0 {
                buffer@[0]
            } else {
                report.endpoint
            };
            let offset = if report.transfer_type == 0 {
                8int
            } else {
                0
            };
            &&& direction & 0x80 == 0 ==> result->Ok_0@.len() == 0
            &&& direction & 0x80 != 0 ==> result->Ok_0@.len() == report.actual_length
            &&& 0 <= k < result->Ok_0@.len() ==> result->Ok_0@[k] == buffer@[offset + k]
        },
{
    crate::meanings::law_when_a_report_fits(report, buffer@);
    crate::meanings::law_packets_within_a_buffer(
        report.iso_lengths@,
        report.iso_actual_lengths@,
        buffer@.len(),
        k,
    );
    if report.status == 0 && report.fits_spec(buffer@) && report.iso_actual_lengths@.len() == 0 {
        crate::meanings::law_which_bytes_come_back(report, buffer@, k);
    }
}

/// What a completed transfer with isochronous packets gives: the data of packet `i` from where
/// the packets before it end, one packet after the other.
pub proof fn law_report_of_packets(
    report: TransferReport,
    buffer: Vec<u8>,
    result: TransferResult,
    i: int,
    k: int,
)
    requires
        call_ensures(TransferReport::result, (&report, &buffer), result),
        report.status == 0,
        report.iso_actual_lengths@.len() > 0,
        report.fits_spec(buffer@),
    ensures
        result is Ok,
        result->Ok_0@.len() == crate::packets::sum(report.iso_actual_lengths@),
        0 <= i < report.iso_actual_lengths@.len() && 0 <= k < report.iso_actual_lengths@[i]
            ==> result->Ok_0@[crate::packets::sum(report.iso_actual_lengths@.take(i)) + k]
            == buffer@[crate::packets::sum(report.iso_lengths@.take(i)) + k],
{
    crate::meanings::law_which_packet_bytes_come_back(report, buffer@, i, k);
}

/// The end of a transfer: `true` is stored in its flag, and then what its report gives for its
/// bytes is sent, on its own channel. What comes back is how that sending ended.
pub proof fn law_transfer_callback(
    context: TransferContext,
    report: TransferReport,
    sent: Result<(), TransferResult>,
)
    requires
        call_ensures(crate::completion::transfer_callback, (context, &report), sent),
    ensures
        call_ensures(AtomicBool::store, (&*context.flag(), true, Ordering::SeqCst), ()),
        exists|message: FinishedTransfer|
            {
                &&& message.flag() == context.flag()
                &&& message.destination() == context.destination()
                &&& report.gives(context.bytes(), message.outcome())
                &&& #[trigger] call_ensures(FinishedTransfer::send, (message,), sent)
                &&& call_ensures(
                    oneshot::Sender::<TransferResult>::send,
                    (context.destination(), message.outcome()),
                    sent,
                )
            },
        sent is Err && report.status == 0 ==> sent->Err_0 is Ok,
        sent is Err && report.status != 0 ==> sent->Err_0 is Err,
{
    let message = choose|message: FinishedTransfer|
        {
            &&& message.flag() == context.flag()
            &&& message.destination() == context.destination()
            &&& report.gives(context.bytes(), message.outcome())
            &&& crate::completion::sending_gives(context.destination(), message.outcome(), sent)
            &&& #[trigger] message.sent_as(sent)
        };
    assert(call_ensures(FinishedTransfer::send, (message,), sent));
}

/// Finishing a transfer and sending its result, one after the other.
pub proof fn law_finish_and_send(
    context: TransferContext,
    report: TransferReport,
    message: FinishedTransfer,
    sent: Result<(), TransferResult>,
    buffer: &Vec<u8>,
)
    ensures
        call_ensures(TransferContext::buffer, (&context,), buffer) ==> buffer@ == context.bytes(),
        call_ensures(TransferContext::finish, (context, &report), message) ==> {
            &&& call_ensures(AtomicBool::store, (&*context.flag(), true, Ordering::SeqCst), ())
            &&& message.flag() == context.flag()
            &&& message.destination() == context.destination()
            &&& message.outcome() is Ok <==> report.status == 0
            &&& message.outcome() is Ok ==> message.outcome()->Ok_0@ == report.received(
                context.bytes(),
            )
        },
        call_ensures(FinishedTransfer::send, (message,), sent) ==> {
            &&& call_ensures(AtomicBool::store, (&*message.flag(), true, Ordering::SeqCst), ())
            &&& call_ensures(
                oneshot::Sender::<TransferResult>::send,
                (message.destination(), message.outcome()),
                sent,
            )
            &&& sent is Err ==> sent->Err_0 == message.outcome()
        },
{
}

// ---- hotplug ----

/// A notification is queued where the descriptor could be read and libusb defines the event: as
/// that event, with the bus, the address, the vendor and the product that came in.
pub proof fn law_hotplug_cb(
    status: i32,
    code: i32,
    info: Info,
    queued: Option<(Event, Info)>,
)
    requires
        call_ensures(crate::hotplug::hotplug_cb, (status, code, info), queued),
    ensures
        queued is Some <==> status == 0 && (code == 1 || code == 2),
        queued is Some ==> {
            let (event, seen) = queued->0;
            &&& event == Event::Arrived <==> code == 1
            &&& event == Event::Left <==> code == 2
            &&& seen.bus == info.bus
            &&& seen.address == info.address
            &&& seen.vendor == info.vendor
            &&& seen.product == info.product
        },
{
    crate::meanings::law_what_is_queued(status, code, info);
}

/// A queue starts empty, and counts what is in it.
pub proof fn law_queue_is_read(queue: HotplugQueue, len: usize)
    ensures
        call_ensures(HotplugQueue::new, (), queue) ==> queue@.len() == 0,
        call_ensures(HotplugQueue::len, (&queue,), len) ==> len == queue@.len(),
{
}

/// A notification goes to the end of the queue, as it is.
pub proof fn law_queue_grows(
    queue: &mut HotplugQueue,
    event: Event,
    info: Info,
    device: UsbDevice,
)
    requires
        call_ensures(HotplugQueue::push_back, (queue, event, info, device), ()),
    ensures
        final(queue)@.len() == old(queue)@.len() + 1,
        final(queue)@.drop_last() == old(queue)@,
        final(queue)@.last() == (event, info, device),
{
    assert(final(queue)@.drop_last() =~= old(queue)@);
}

/// Enabling hotplug: libusb is asked for the capability as long as no callback is registered,
/// and then for both events of every device of the guest's context.
pub proof fn law_enable_hotplug(
    usb: WasiUsbCtxView<'_>,
    capability: Option<u32>,
    answer: i32,
    registration: Result<HotplugRegistration, LibusbError>,
)
    ensures
        call_ensures(WasiUsbCtxView::enable_hotplug, (&usb,), capability) ==> {
            &&& capability is None <==> usb.state().hotplug_handle is Some
            &&& capability is Some ==> capability->0 == 1
        },
        call_ensures(WasiUsbCtxView::hotplug_registration, (&usb, answer), registration) ==> {
            &&& registration is Ok <==> answer != 0 && usb.state().libusb_ctx is Some
            &&& registration is Err && answer == 0 ==> registration->Err_0
                == LibusbError::NotSupported
            &&& registration is Err && answer != 0 ==> registration->Err_0 == LibusbError::NotFound
            &&& registration is Ok ==> {
                &&& registration->Ok_0.context == usb.state().libusb_ctx->0
                &&& registration->Ok_0.events == 3
                &&& registration->Ok_0.flags == 0
                &&& registration->Ok_0.vendor_id == -1
                &&& registration->Ok_0.product_id == -1
                &&& registration->Ok_0.dev_class == -1
            }
        },
{
    crate::meanings::law_what_is_registered(usb.state(), answer, 0);
    if usb.state().libusb_ctx is Some {
        crate::meanings::law_what_is_registered(usb.state(), answer, usb.state().libusb_ctx->0);
    }
}

/// A registration that libusb accepted is kept, and nothing else changes; one that failed gives
/// its error and changes nothing.
pub proof fn law_enable_hotplug_reply(
    usb: &mut WasiUsbCtxView<'_>,
    status: i32,
    handle: i32,
    reply: Result<(), LibusbError>,
)
    requires
        call_ensures(WasiUsbCtxView::enable_hotplug_reply, (usb, status, handle), reply),
    ensures
        reply is Ok <==> status >= 0,
        reply is Err ==> reply->Err_0 == LibusbError::of_code(status as int),
        reply is Ok ==> {
            &&& final(usb).state().hotplug_handle == Some(handle)
            &&& final(usb).state().hotplug_enabled
        },
        reply is Err ==> final(usb).state() == old(usb).state(),
        final(usb).state().libusb_ctx == old(usb).state().libusb_ctx,
        final(usb).state().event_loop_flag == old(usb).state().event_loop_flag,
        final(usb).entries() == old(usb).entries(),
{
}

/// A poll hands out every notification of the queue, in its order, each with its event, its info
/// and a handle under which its own device is found, and leaves the queue empty.
pub proof fn law_poll_events(
    usb: &mut WasiUsbCtxView<'_>,
    queue: &mut HotplugQueue,
    reply: Result<Vec<(Event, Info, u32)>, LibusbError>,
    i: int,
    rep: u32,
)
    requires
        call_ensures(WasiUsbCtxView::poll_events, (usb, queue), reply),
    ensures
        reply is Err ==> reply->Err_0 == LibusbError::Other,
        old(usb).entries().dom().len() + old(queue)@.len() <= old(usb).capacity()
            && old(usb).entries().dom().len() + old(queue)@.len() <= 0x1_0000_0000 ==> reply is Ok,
        reply is Ok ==> {
            &&& final(queue)@.len() == 0
            &&& reply->Ok_0@.len() == old(queue)@.len()
        },
        reply is Ok && 0 <= i < old(queue)@.len() ==> {
            &&& reply->Ok_0@[i].0 == old(queue)@[i].0
            &&& reply->Ok_0@[i].1 == old(queue)@[i].1
            &&& !old(usb).entries().contains_key(reply->Ok_0@[i].2)
            &&& final(usb).entries().contains_pair(
                reply->Ok_0@[i].2,
                Entry::Device(old(queue)@[i].2),
            )
        },
        old(usb).entries().contains_key(rep) ==> final(usb).entries().contains_pair(
            rep,
            old(usb).entries()[rep],
        ),
        final(usb).state() == old(usb).state(),
{
    let events = old(queue)@;
    let devices = crate::hotplug::devices_of(events);
    if reply is Ok {
        let reps = choose|reps: Seq<u32>|
            {
                &&& reps.len() == events.len()
                &&& #[trigger] crate::table::devices_added(
                    old(usb).entries(),
                    final(usb).entries(),
                    devices,
                    reps,
                )
                &&& reply->Ok_0@ == crate::hotplug::polled(events, reps)
            };
        crate::meanings::law_what_is_polled(events, reps, i);
        crate::meanings::law_which_slots_are_filled(
            old(usb).entries(),
            final(usb).entries(),
            devices,
            reps,
            i,
            i,
            rep,
        );
    } else {
        let reps = choose|reps: Seq<u32>| #[trigger]
            crate::table::devices_added(old(usb).entries(), final(usb).entries(), devices, reps);
        crate::meanings::law_which_slots_are_filled(
            old(usb).entries(),
            final(usb).entries(),
            devices,
            reps,
            i,
            i,
            rep,
        );
    }
}

// ---- guests ----

/// A new guest has no context, no callback and no resources, and what can be read of its state
/// is what the state holds.
pub proof fn law_new_guest(
    enabled: bool,
    guest: (WasiUsbCtx, ResourceTable),
    ctx: WasiUsbCtx,
    context: Option<usize>,
    value: bool,
    handle: Option<i32>,
)
    ensures
        call_ensures(crate::usb::new_guest, (enabled,), guest) ==> {
            &&& guest.0@.libusb_ctx is None
            &&& guest.0@.event_loop_flag is None
            &&& guest.0@.hotplug_enabled == enabled
            &&& guest.0@.hotplug_handle is None
            &&& crate::table::table_entries(guest.1).dom() == Set::<u32>::empty()
        },
        call_ensures(WasiUsbCtx::new, (enabled,), ctx) ==> {
            &&& ctx@.libusb_ctx is None
            &&& ctx@.event_loop_flag is None
            &&& ctx@.hotplug_enabled == enabled
            &&& ctx@.hotplug_handle is None
        },
        call_ensures(WasiUsbCtx::libusb_ctx, (&ctx,), context) ==> context == ctx@.libusb_ctx,
        call_ensures(WasiUsbCtx::hotplug_enabled, (&ctx,), value) ==> value == ctx@.hotplug_enabled,
        call_ensures(WasiUsbCtx::hotplug_handle, (&ctx,), handle) ==> handle == ctx@.hotplug_handle,
{
}

} // verus!
