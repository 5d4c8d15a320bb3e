use std::sync::atomic::Ordering;

use wasmtime::component::Resource;
use wasmtime_wasi::ResourceTable;
use wasmtime_wasi_usb::descriptors::RawDeviceDescriptor;
use wasmtime_wasi_usb::device::{event_loop_goes_on, ConfigCall};
use wasmtime_wasi_usb::handle::{get_configuration_reply, kernel_driver_active_reply};
use wasmtime_wasi_usb::{
    new_guest, ConfigValue, DeviceProbe, LibusbError, StatusCall, UsbDeviceHandle, UsbSpeed,
    WasiUsbCtx, WasiUsbCtxView, WasiUsbView,
};

struct Host {
    ctx: WasiUsbCtx,
    table: ResourceTable,
}

impl Host {
    fn new() -> Host {
        let (ctx, table) = new_guest(false);
        Host { ctx, table }
    }
}

impl WasiUsbView for Host {
    fn usb(&mut self) -> WasiUsbCtxView<'_> {
        WasiUsbCtxView { ctx: &mut self.ctx, table: &mut self.table }
    }
}

fn probe(device: usize, status: i32, product: u16) -> DeviceProbe {
    DeviceProbe {
        device,
        status,
        descriptor: RawDeviceDescriptor {
            b_length: 18,
            b_descriptor_type: 1,
            bcd_usb: 0x0200,
            b_device_class: 0,
            b_device_sub_class: 0,
            b_device_protocol: 0,
            b_max_packet_size0: 64,
            id_vendor: 0x1d6b,
            id_product: product,
            bcd_device: 1,
            i_manufacturer: 1,
            i_product: 2,
            i_serial_number: 3,
            b_num_configurations: 1,
        },
        bus_number: 4,
        device_address: 5,
        port_number: 6,
        speed: 3,
    }
}

#[test]
fn a_new_context_has_nothing_but_its_hotplug_choice() {
    for enabled in [true, false] {
        let ctx = WasiUsbCtx::new(enabled);
        assert_eq!(ctx.libusb_ctx(), None);
        assert_eq!(ctx.hotplug_enabled(), enabled);
        assert_eq!(ctx.hotplug_handle(), None);
    }
}

#[test]
fn initialisation_happens_once() {
    let mut host = Host::new();
    let mut usb = host.usb();
    assert!(usb.init());
    assert!(matches!(usb.init_reply(-99, 0), Err(LibusbError::Other)));
    assert!(usb.init());
    let flag = usb.init_reply(0, 0x1000).unwrap();
    assert!(flag.load(Ordering::SeqCst));
    assert!(!usb.init());
    assert_eq!(usb.ctx.libusb_ctx(), Some(0x1000));
}

#[test]
fn the_event_loop_stops_at_an_error() {
    assert!(event_loop_goes_on(0));
    assert!(event_loop_goes_on(1));
    assert!(!event_loop_goes_on(-1));
}

#[test]
fn devices_are_listed_after_initialisation_only() {
    let mut host = Host::new();
    let mut usb = host.usb();
    assert_eq!(usb.list_devices(), Err(LibusbError::NotFound));
    usb.init_reply(0, 0x1000).unwrap();
    assert_eq!(usb.list_devices(), Ok(0x1000));
}

#[test]
fn a_failed_listing_gives_its_error() {
    let mut host = Host::new();
    let reply = host.usb().list_devices_reply(-11, &vec![]);
    assert!(matches!(reply, Err(LibusbError::NoMem)));
    assert!(host.table.is_empty());
}

#[test]
fn listed_devices_are_resources() {
    let mut host = Host::new();
    let mut usb = host.usb();
    let probes =
        vec![probe(0x10, 0, 100), probe(0, 0, 101), probe(0x20, -1, 102), probe(0x30, 0, 103)];
    let list = usb.list_devices_reply(4, &probes).unwrap();
    assert_eq!(list.len(), 2);
    assert_eq!(list[0].1.product_id, 100);
    assert_eq!(list[1].1.product_id, 103);
    assert_eq!(list[0].1.vendor_id, 0x1d6b);
    assert_eq!(list[0].2.bus_number, 4);
    assert_eq!(list[0].2.device_address, 5);
    assert_eq!(list[0].2.port_number, 6);
    assert_eq!(list[0].2.speed, UsbSpeed::High);
    assert_eq!(usb.open(list[0].0), Some(0x10));
    assert_eq!(usb.open(list[1].0), Some(0x30));
    // the device whose descriptor could not be read has a slot, between the other two
    assert_eq!(list[1].0, list[0].0 + 2);
    assert_eq!(usb.open(list[0].0 + 1), Some(0x20));
}

#[test]
fn only_the_low_byte_of_a_speed_counts() {
    let mut host = Host::new();
    let mut odd = probe(0x10, 0, 100);
    odd.speed = 0x0104;
    let list = host.usb().list_devices_reply(1, &vec![odd]).unwrap();
    assert_eq!(list[0].2.speed, UsbSpeed::Super);
    odd.speed = -1;
    let list = host.usb().list_devices_reply(1, &vec![odd]).unwrap();
    assert_eq!(list[0].2.speed, UsbSpeed::Unknown);
}

#[test]
fn a_listing_that_finds_no_room_fails() {
    let mut host = Host::new();
    host.table.set_max_capacity(2);
    let probes = vec![probe(0x10, 0, 1), probe(0x20, 0, 2), probe(0x30, 0, 3)];
    let reply = host.usb().list_devices_reply(3, &probes);
    assert!(matches!(reply, Err(LibusbError::Other)));
    assert_eq!(host.usb().open(0), Some(0x10));
    assert_eq!(host.usb().open(1), Some(0x20));
    host.table.set_max_capacity(5);
    assert_eq!(host.usb().list_devices_reply(3, &probes).unwrap().len(), 3);
}

#[test]
fn configurations_are_read_from_the_named_device() {
    let mut host = Host::new();
    let mut usb = host.usb();
    let device = usb.list_devices_reply(1, &vec![probe(0x10, 0, 1)]).unwrap()[0].0;
    assert_eq!(
        usb.get_configuration_descriptor(device, 2),
        Some(ConfigCall::ByIndex { device: 0x10, index: 2 })
    );
    assert_eq!(
        usb.get_configuration_descriptor_by_value(device, 7),
        Some(ConfigCall::ByValue { device: 0x10, value: 7 })
    );
    assert_eq!(
        usb.get_active_configuration_descriptor(device),
        Some(ConfigCall::Active { device: 0x10 })
    );
    assert_eq!(usb.get_configuration_descriptor(device + 1, 2), None);
    assert_eq!(usb.get_configuration_descriptor_by_value(device + 1, 2), None);
    assert_eq!(usb.get_active_configuration_descriptor(device + 1), None);
}

#[test]
fn dropping_a_device_keeps_its_resource() {
    let mut host = Host::new();
    let mut usb = host.usb();
    let device = usb.list_devices_reply(1, &vec![probe(0x10, 0, 1)]).unwrap()[0].0;
    assert_eq!(usb.drop_device(device), Some(0x10));
    assert_eq!(usb.drop_device(device), Some(0x10));
    assert_eq!(usb.drop_device(device + 1), None);
}

#[test]
fn opening_gives_a_handle() {
    let mut host = Host::new();
    let mut usb = host.usb();
    assert_eq!(usb.open_reply(-3, 0), Err(LibusbError::Access));
    let first = usb.open_reply(0, 0x100).unwrap();
    let second = usb.open_reply(0, 0x200).unwrap();
    assert_ne!(first, second);
    assert_eq!(usb.get_configuration(first), Some(0x100));
    assert_eq!(usb.get_configuration(second), Some(0x200));
    // a handle is no device
    assert_eq!(usb.open(first), None);
    usb.table.set_max_capacity(2);
    assert_eq!(usb.open_reply(0, 0x300), Err(LibusbError::Other));
}

#[test]
fn handle_operations_become_calls() {
    let mut host = Host::new();
    let mut usb = host.usb();
    let h = usb.open_reply(0, 0x100).unwrap();
    assert_eq!(
        usb.set_configuration(h, ConfigValue::Value(3)),
        Some(StatusCall::SetConfiguration { handle: 0x100, configuration: 3 })
    );
    assert_eq!(
        usb.set_configuration(h, ConfigValue::Unconfigured),
        Some(StatusCall::SetConfiguration { handle: 0x100, configuration: 0 })
    );
    assert_eq!(
        usb.claim_interface(h, 1),
        Some(StatusCall::ClaimInterface { handle: 0x100, interface: 1 })
    );
    assert_eq!(
        usb.release_interface(h, 255),
        Some(StatusCall::ReleaseInterface { handle: 0x100, interface: 255 })
    );
    assert_eq!(
        usb.set_interface_altsetting(h, 1, 2),
        Some(StatusCall::SetInterfaceAltSetting { handle: 0x100, interface: 1, alt_setting: 2 })
    );
    assert_eq!(
        usb.clear_halt(h, 0x81),
        Some(StatusCall::ClearHalt { handle: 0x100, endpoint: 0x81 })
    );
    assert_eq!(usb.reset_device(h), Some(StatusCall::ResetDevice { handle: 0x100 }));
    assert_eq!(
        usb.kernel_driver_active(h, 1),
        Some(StatusCall::KernelDriverActive { handle: 0x100, interface: 1 })
    );
    assert_eq!(
        usb.detach_kernel_driver(h, 1),
        Some(StatusCall::DetachKernelDriver { handle: 0x100, interface: 1 })
    );
    assert_eq!(
        usb.attach_kernel_driver(h, 1),
        Some(StatusCall::AttachKernelDriver { handle: 0x100, interface: 1 })
    );
    assert_eq!(
        usb.alloc_streams(h, 4, vec![0x81, 0x02]),
        Some(StatusCall::AllocStreams {
            handle: 0x100,
            num_streams: 4,
            endpoints: vec![0x81, 0x02],
            num_endpoints: 2,
        })
    );
    assert_eq!(
        usb.free_streams(h, vec![0x81]),
        Some(StatusCall::FreeStreams { handle: 0x100, endpoints: vec![0x81], num_endpoints: 1 })
    );
    assert_eq!(usb.reset_device(h + 1), None);
    assert_eq!(usb.claim_interface(h + 1, 1), None);
    assert_eq!(usb.alloc_streams(h + 1, 4, vec![]), None);
    assert_eq!(usb.free_streams(h + 1, vec![]), None);
}

#[test]
fn configurations_are_bytes() {
    assert_eq!(get_configuration_reply(0, 1), Ok(1));
    assert_eq!(get_configuration_reply(0, 0x0102), Ok(2));
    assert_eq!(get_configuration_reply(0, -1), Ok(255));
    assert_eq!(get_configuration_reply(-4, 1), Err(LibusbError::NoDevice));
}

#[test]
fn kernel_drivers_are_active_or_not() {
    assert_eq!(kernel_driver_active_reply(0), Ok(false));
    assert_eq!(kernel_driver_active_reply(1), Ok(true));
    assert_eq!(kernel_driver_active_reply(5), Ok(true));
    assert_eq!(kernel_driver_active_reply(-12), Err(LibusbError::NotSupported));
}

#[test]
fn closing_undoes_opening() {
    let mut host = Host::new();
    let mut usb = host.usb();
    let h = usb.open_reply(0, 0x100).unwrap();
    assert_eq!(usb.close(h, false), Some(0x100));
    assert!(usb.close_reply(h));
    assert!(usb.table.is_empty());
    assert_eq!(usb.close(h, false), None);
    assert!(!usb.close_reply(h));
}

#[test]
fn an_owned_handle_closes_nothing() {
    let mut host = Host::new();
    let mut usb = host.usb();
    let h = usb.open_reply(0, 0x100).unwrap();
    assert_eq!(usb.close(h, true), None);
    assert_eq!(usb.drop_handle(h, true), None);
    assert_eq!(usb.drop_handle(h, false), Some(0x100));
    assert_eq!(usb.get_configuration(h), Some(0x100));
}

#[test]
fn a_handle_with_children_is_not_removed() {
    let mut host = Host::new();
    let h = host.usb().open_reply(0, 0x100).unwrap();
    let parent = wasmtime::component::Resource::<wasmtime_wasi_usb::UsbDeviceHandle>::new_own(h);
    host.table.push_child(1u8, &parent).unwrap();
    assert!(!host.usb().close_reply(h));
    assert_eq!(host.usb().get_configuration(h), Some(0x100));
}

#[test]
fn a_new_guest_has_nothing() {
    for enabled in [false, true] {
        let (ctx, table) = new_guest(enabled);
        assert_eq!(ctx.libusb_ctx(), None);
        assert_eq!(ctx.hotplug_enabled(), enabled);
        assert_eq!(ctx.hotplug_handle(), None);
        assert!(table.is_empty());
    }
}

#[test]
fn a_child_of_another_resource_can_be_closed() {
    let mut host = Host::new();
    let parent = host.table.push(String::from("parent")).unwrap();
    let mut usb = host.usb();
    let h = usb.open_reply(0, 0x100).unwrap();
    let owner: Resource<String> = Resource::new_own(parent.rep());
    usb.table.add_child(Resource::<UsbDeviceHandle>::new_own(h), owner).unwrap();
    assert!(usb.close_reply(h));
    assert_eq!(usb.close(h, false), None);
    // the last child is gone, so the parent can go too
    assert_eq!(usb.table.delete(parent).unwrap(), "parent");
    assert!(usb.table.is_empty());
}
