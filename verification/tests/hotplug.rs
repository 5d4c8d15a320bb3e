use wasmtime_wasi::ResourceTable;
use wasmtime_wasi_usb::hotplug::HotplugRegistration;
use wasmtime_wasi_usb::{
    hotplug_cb, Event, HotplugQueue, Info, LibusbError, UsbDevice, WasiUsbCtx, WasiUsbCtxView,
};

fn info(address: u8) -> Info {
    Info { bus: 1, address, vendor: 0x1d6b, product: 2 }
}

#[test]
fn hotplug_is_enabled_in_three_steps() {
    let mut ctx = WasiUsbCtx::new(false);
    let mut table = ResourceTable::new();
    let mut usb = WasiUsbCtxView { ctx: &mut ctx, table: &mut table };
    assert_eq!(usb.enable_hotplug(), Some(1));
    assert_eq!(usb.hotplug_registration(0), Err(LibusbError::NotSupported));
    assert_eq!(usb.hotplug_registration(1), Err(LibusbError::NotFound));
    usb.init_reply(0, 0x1000).unwrap();
    assert_eq!(usb.hotplug_registration(0), Err(LibusbError::NotSupported));
    assert_eq!(
        usb.hotplug_registration(1),
        Ok(HotplugRegistration {
            context: 0x1000,
            events: 3,
            flags: 0,
            vendor_id: -1,
            product_id: -1,
            dev_class: -1,
        })
    );
    assert_eq!(usb.enable_hotplug_reply(-11, 5), Err(LibusbError::NoMem));
    assert_eq!(usb.enable_hotplug(), Some(1));
    assert_eq!(usb.ctx.hotplug_handle(), None);
    assert_eq!(usb.enable_hotplug_reply(0, 5), Ok(()));
    assert_eq!(usb.enable_hotplug(), None);
    assert_eq!(usb.ctx.hotplug_handle(), Some(5));
    assert!(usb.ctx.hotplug_enabled());
    assert_eq!(usb.ctx.libusb_ctx(), Some(0x1000));
}

#[test]
fn a_guest_made_with_hotplug_gets_its_callback() {
    let mut ctx = WasiUsbCtx::new(true);
    let mut table = ResourceTable::new();
    let mut usb = WasiUsbCtxView { ctx: &mut ctx, table: &mut table };
    assert!(usb.ctx.hotplug_enabled());
    usb.init_reply(0, 0x1000).unwrap();
    assert_eq!(usb.enable_hotplug(), Some(1));
    assert_eq!(usb.hotplug_registration(1).unwrap().context, 0x1000);
    assert_eq!(usb.enable_hotplug_reply(0, 7), Ok(()));
    assert_eq!(usb.ctx.hotplug_handle(), Some(7));
    assert!(usb.ctx.hotplug_enabled());
    // once is enough
    assert_eq!(usb.enable_hotplug(), None);
}

#[test]
fn hotplug_counts_as_enabled_once_it_is_registered() {
    let mut ctx = WasiUsbCtx::new(false);
    let mut table = ResourceTable::new();
    let mut usb = WasiUsbCtxView { ctx: &mut ctx, table: &mut table };
    assert!(!usb.ctx.hotplug_enabled());
    usb.init_reply(0, 0x1000).unwrap();
    assert!(!usb.ctx.hotplug_enabled());
    assert_eq!(usb.enable_hotplug_reply(-1, 7), Err(LibusbError::Io));
    assert!(!usb.ctx.hotplug_enabled());
    assert_eq!(usb.ctx.hotplug_handle(), None);
    assert_eq!(usb.enable_hotplug_reply(0, 7), Ok(()));
    assert!(usb.ctx.hotplug_enabled());
    assert_eq!(usb.ctx.hotplug_handle(), Some(7));
    assert_eq!(usb.ctx.libusb_ctx(), Some(0x1000));
}

#[test]
fn notifications_are_read() {
    assert_eq!(hotplug_cb(0, 1, info(3)), Some((Event::Arrived, info(3))));
    assert_eq!(hotplug_cb(0, 2, info(3)), Some((Event::Left, info(3))));
    assert_eq!(hotplug_cb(0, 3, info(3)), None);
    assert_eq!(hotplug_cb(0, 0, info(3)), None);
    assert_eq!(hotplug_cb(-1, 1, info(3)), None);
    assert_eq!(hotplug_cb(1, 1, info(3)), None);
}

#[test]
fn notifications_are_polled_in_order_and_once() {
    let mut ctx = WasiUsbCtx::new(true);
    let mut table = ResourceTable::new();
    let mut usb = WasiUsbCtxView { ctx: &mut ctx, table: &mut table };
    let mut queue = HotplugQueue::new();
    assert!(usb.poll_events(&mut queue).unwrap().is_empty());
    queue.push_back(Event::Arrived, info(1), UsbDevice { device: 0x10 });
    queue.push_back(Event::Left, info(2), UsbDevice { device: 0x20 });
    queue.push_back(Event::Left, info(1), UsbDevice { device: 0x10 });
    assert_eq!(queue.len(), 3);
    let events = usb.poll_events(&mut queue).unwrap();
    let heads: Vec<(Event, Info)> = events.iter().map(|e| (e.0, e.1)).collect();
    assert_eq!(
        heads,
        vec![(Event::Arrived, info(1)), (Event::Left, info(2)), (Event::Left, info(1))]
    );
    assert_eq!(usb.open(events[0].2), Some(0x10));
    assert_eq!(usb.open(events[1].2), Some(0x20));
    assert_eq!(usb.open(events[2].2), Some(0x10));
    assert_ne!(events[0].2, events[2].2);
    assert_eq!(queue.len(), 0);
    assert!(usb.poll_events(&mut queue).unwrap().is_empty());
}

#[test]
fn a_poll_that_finds_no_room_fails() {
    let mut ctx = WasiUsbCtx::new(true);
    let mut table = ResourceTable::new();
    table.set_max_capacity(1);
    let mut usb = WasiUsbCtxView { ctx: &mut ctx, table: &mut table };
    let mut queue = HotplugQueue::new();
    for n in 1..4 {
        queue.push_back(Event::Arrived, info(n), UsbDevice { device: 0x10 });
    }
    assert_eq!(usb.poll_events(&mut queue), Err(LibusbError::Other));
    assert_eq!(queue.len(), 1);
    assert_eq!(usb.open(0), Some(0x10));
}

#[test]
fn polls_together_hand_out_each_notification_once() {
    let mut ctx = WasiUsbCtx::new(true);
    let mut table = ResourceTable::new();
    let mut usb = WasiUsbCtxView { ctx: &mut ctx, table: &mut table };
    let mut queue = HotplugQueue::new();
    let mut seen: Vec<(Event, Info)> = vec![];
    let history = [(0, 1, 1), (-1, 1, 2), (0, 2, 3), (0, 9, 4), (0, 1, 5), (0, 2, 6)];
    for (n, (status, code, address)) in history.into_iter().enumerate() {
        if let Some((event, info)) = hotplug_cb(status, code, info(address)) {
            queue.push_back(event, info, UsbDevice { device: address as usize });
        }
        if n % 2 == 0 {
            for (event, info, rep) in usb.poll_events(&mut queue).unwrap() {
                assert_eq!(usb.open(rep), Some(info.address as usize));
                seen.push((event, info));
            }
        }
    }
    seen.extend(usb.poll_events(&mut queue).unwrap().iter().map(|e| (e.0, e.1)));
    assert!(usb.poll_events(&mut queue).unwrap().is_empty());
    assert_eq!(
        seen,
        vec![
            (Event::Arrived, info(1)),
            (Event::Left, info(3)),
            (Event::Arrived, info(5)),
            (Event::Left, info(6)),
        ]
    );
}
