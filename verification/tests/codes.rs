use libusb1_sys::constants as c;
use wasmtime_wasi_usb::constants;
use wasmtime_wasi_usb::{status_reply, LibusbError, UsbSpeed};

#[test]
fn every_error_code_is_read() {
    let codes = [
        (-1, LibusbError::Io),
        (-2, LibusbError::InvalidParam),
        (-3, LibusbError::Access),
        (-4, LibusbError::NoDevice),
        (-5, LibusbError::NotFound),
        (-6, LibusbError::Busy),
        (-7, LibusbError::Timeout),
        (-8, LibusbError::Overflow),
        (-9, LibusbError::Pipe),
        (-10, LibusbError::Interrupted),
        (-11, LibusbError::NoMem),
        (-12, LibusbError::NotSupported),
        (-99, LibusbError::Other),
    ];
    for (code, error) in codes {
        assert_eq!(LibusbError::from_raw(code), error);
        assert_eq!(status_reply(code), Err(error));
    }
}

#[test]
fn unknown_error_codes_are_other() {
    for code in [-13, -98, -100, 0, 1, i32::MIN, i32::MAX] {
        assert_eq!(LibusbError::from_raw(code), LibusbError::Other);
    }
}

#[test]
fn error_codes_agree_with_libusb() {
    assert_eq!(LibusbError::from_raw(c::LIBUSB_ERROR_IO), LibusbError::Io);
    assert_eq!(LibusbError::from_raw(c::LIBUSB_ERROR_NOT_FOUND), LibusbError::NotFound);
    assert_eq!(LibusbError::from_raw(c::LIBUSB_ERROR_PIPE), LibusbError::Pipe);
    assert_eq!(LibusbError::from_raw(c::LIBUSB_ERROR_NO_MEM), LibusbError::NoMem);
    assert_eq!(LibusbError::from_raw(c::LIBUSB_ERROR_OTHER), LibusbError::Other);
}

#[test]
fn a_status_that_is_not_negative_is_success() {
    assert_eq!(status_reply(0), Ok(()));
    assert_eq!(status_reply(17), Ok(()));
    assert_eq!(status_reply(i32::MAX), Ok(()));
}

#[test]
fn every_speed_is_read() {
    assert_eq!(UsbSpeed::from_raw(0), UsbSpeed::Unknown);
    assert_eq!(UsbSpeed::from_raw(1), UsbSpeed::Low);
    assert_eq!(UsbSpeed::from_raw(2), UsbSpeed::Full);
    assert_eq!(UsbSpeed::from_raw(3), UsbSpeed::High);
    assert_eq!(UsbSpeed::from_raw(4), UsbSpeed::Super);
    assert_eq!(UsbSpeed::from_raw(5), UsbSpeed::SuperPlus);
    assert_eq!(UsbSpeed::from_raw(6), UsbSpeed::SuperPlusX2);
    assert_eq!(UsbSpeed::from_raw(7), UsbSpeed::Unknown);
    assert_eq!(UsbSpeed::from_raw(255), UsbSpeed::Unknown);
}

#[test]
fn constants_agree_with_libusb() {
    assert_eq!(constants::LIBUSB_TRANSFER_TYPE_CONTROL, c::LIBUSB_TRANSFER_TYPE_CONTROL);
    assert_eq!(constants::LIBUSB_TRANSFER_TYPE_ISOCHRONOUS, c::LIBUSB_TRANSFER_TYPE_ISOCHRONOUS);
    assert_eq!(constants::LIBUSB_TRANSFER_TYPE_BULK, c::LIBUSB_TRANSFER_TYPE_BULK);
    assert_eq!(constants::LIBUSB_TRANSFER_TYPE_INTERRUPT, c::LIBUSB_TRANSFER_TYPE_INTERRUPT);
    assert_eq!(constants::LIBUSB_TRANSFER_COMPLETED, c::LIBUSB_TRANSFER_COMPLETED);
    assert_eq!(constants::LIBUSB_TRANSFER_ERROR, c::LIBUSB_TRANSFER_ERROR);
    assert_eq!(constants::LIBUSB_TRANSFER_TIMED_OUT, c::LIBUSB_TRANSFER_TIMED_OUT);
    assert_eq!(constants::LIBUSB_TRANSFER_CANCELLED, c::LIBUSB_TRANSFER_CANCELLED);
    assert_eq!(constants::LIBUSB_TRANSFER_STALL, c::LIBUSB_TRANSFER_STALL);
    assert_eq!(constants::LIBUSB_TRANSFER_NO_DEVICE, c::LIBUSB_TRANSFER_NO_DEVICE);
    assert_eq!(constants::LIBUSB_TRANSFER_OVERFLOW, c::LIBUSB_TRANSFER_OVERFLOW);
    assert_eq!(constants::LIBUSB_CAP_HAS_HOTPLUG, c::LIBUSB_CAP_HAS_HOTPLUG);
    assert_eq!(
        constants::LIBUSB_HOTPLUG_EVENT_DEVICE_ARRIVED,
        c::LIBUSB_HOTPLUG_EVENT_DEVICE_ARRIVED
    );
    assert_eq!(constants::LIBUSB_HOTPLUG_EVENT_DEVICE_LEFT, c::LIBUSB_HOTPLUG_EVENT_DEVICE_LEFT);
    assert_eq!(constants::LIBUSB_HOTPLUG_NO_FLAGS, c::LIBUSB_HOTPLUG_NO_FLAGS);
    assert_eq!(constants::LIBUSB_HOTPLUG_MATCH_ANY, c::LIBUSB_HOTPLUG_MATCH_ANY);
    assert_eq!(constants::DIRECTION_IN, c::LIBUSB_ENDPOINT_IN);
}
