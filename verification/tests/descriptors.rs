use wasmtime_wasi_usb::descriptors::{
    element_count, RawAltSetting, RawConfig, RawDeviceDescriptor, RawEndpoint, RawInterface,
};
use wasmtime_wasi_usb::{
    config_descriptor_reply, generate_config_descriptor, DeviceDescriptor, EndpointDescriptor,
    LibusbError,
};

fn endpoint(address: u8) -> RawEndpoint {
    RawEndpoint {
        b_length: 7,
        b_descriptor_type: 5,
        b_endpoint_address: address,
        bm_attributes: 2,
        w_max_packet_size: 512,
        b_interval: 1,
        b_refresh: 3,
        b_synch_address: 4,
    }
}

fn setting(number: u8, alternate: u8, endpoints: Vec<RawEndpoint>) -> RawAltSetting {
    RawAltSetting {
        b_length: 9,
        b_descriptor_type: 4,
        b_interface_number: number,
        b_alternate_setting: alternate,
        b_interface_class: 8,
        b_interface_sub_class: 6,
        b_interface_protocol: 80,
        i_interface: 11,
        endpoints,
    }
}

fn config(interfaces: Vec<RawInterface>) -> RawConfig {
    RawConfig {
        b_length: 9,
        b_descriptor_type: 2,
        w_total_length: 0x1234,
        b_configuration_value: 1,
        i_configuration: 3,
        bm_attributes: 0xC0,
        b_max_power: 50,
        interfaces,
    }
}

#[test]
fn a_configuration_keeps_its_numbers() {
    let descriptor = generate_config_descriptor(&config(vec![]));
    assert_eq!(descriptor.length, 9);
    assert_eq!(descriptor.descriptor_type, 2);
    assert_eq!(descriptor.total_length, 0x1234);
    assert_eq!(descriptor.configuration_value, 1);
    assert_eq!(descriptor.configuration_index, 3);
    assert_eq!(descriptor.attributes, 0xC0);
    assert_eq!(descriptor.max_power, 50);
    assert!(descriptor.interfaces.is_empty());
}

#[test]
fn alternate_settings_follow_one_another() {
    let raw = config(vec![
        RawInterface {
            altsettings: vec![setting(0, 0, vec![]), setting(0, 1, vec![endpoint(0x81)])],
        },
        RawInterface { altsettings: vec![] },
        RawInterface { altsettings: vec![setting(2, 0, vec![endpoint(0x02), endpoint(0x83)])] },
    ]);
    let descriptor = generate_config_descriptor(&raw);
    let places: Vec<(u8, u8, usize)> = descriptor
        .interfaces
        .iter()
        .map(|i| (i.interface_number, i.alternate_setting, i.endpoints.len()))
        .collect();
    assert_eq!(places, vec![(0, 0, 0), (0, 1, 1), (2, 0, 2)]);
    let last = &descriptor.interfaces[2];
    assert_eq!(last.length, 9);
    assert_eq!(last.descriptor_type, 4);
    assert_eq!(last.interface_class, 8);
    assert_eq!(last.interface_subclass, 6);
    assert_eq!(last.interface_protocol, 80);
    assert_eq!(last.interface_index, 11);
    assert_eq!(last.endpoints[0].endpoint_address, 0x02);
    assert_eq!(
        last.endpoints[1],
        EndpointDescriptor {
            length: 7,
            descriptor_type: 5,
            endpoint_address: 0x83,
            attributes: 2,
            max_packet_size: 512,
            interval: 1,
            refresh: 3,
            synch_address: 4,
        }
    );
}

#[test]
fn a_failed_read_gives_no_configuration() {
    let reply = config_descriptor_reply(-5, &None);
    assert!(matches!(reply, Err(LibusbError::NotFound)));
    let reply = config_descriptor_reply(-4, &Some(config(vec![])));
    assert!(matches!(reply, Err(LibusbError::NoDevice)));
    let reply = config_descriptor_reply(0, &Some(config(vec![])));
    assert_eq!(reply.unwrap().configuration_value, 1);
}

#[test]
fn negative_counts_are_empty() {
    assert_eq!(element_count(-1), 0);
    assert_eq!(element_count(0), 0);
    assert_eq!(element_count(3), 3);
    assert_eq!(element_count(i32::MAX), 2147483647);
}

#[test]
fn a_device_descriptor_keeps_its_numbers() {
    let raw = RawDeviceDescriptor {
        b_length: 18,
        b_descriptor_type: 1,
        bcd_usb: 0x0210,
        b_device_class: 2,
        b_device_sub_class: 3,
        b_device_protocol: 4,
        b_max_packet_size0: 64,
        id_vendor: 0x1d6b,
        id_product: 0x0104,
        bcd_device: 0x0100,
        i_manufacturer: 5,
        i_product: 6,
        i_serial_number: 7,
        b_num_configurations: 8,
    };
    assert_eq!(
        DeviceDescriptor::from_raw(&raw),
        DeviceDescriptor {
            length: 18,
            descriptor_type: 1,
            usb_version_bcd: 0x0210,
            device_class: 2,
            device_subclass: 3,
            device_protocol: 4,
            max_packet_size0: 64,
            vendor_id: 0x1d6b,
            product_id: 0x0104,
            device_version_bcd: 0x0100,
            manufacturer_index: 5,
            product_index: 6,
            serial_number_index: 7,
            num_configurations: 8,
        }
    );
}
