//! Descriptors: what libusb reads from a device, and what the guest is given.
use vstd::prelude::*;

verus! {

/// A device descriptor, as libusb reads it.
#[derive(Debug, Clone, Copy, PartialEq, Eq, Structural)]
pub struct RawDeviceDescriptor {
    pub b_length: u8,
    pub b_descriptor_type: u8,
    pub bcd_usb: u16,
    pub b_device_class: u8,
    pub b_device_sub_class: u8,
    pub b_device_protocol: u8,
    pub b_max_packet_size0: u8,
    pub id_vendor: u16,
    pub id_product: u16,
    pub bcd_device: u16,
    pub i_manufacturer: u8,
    pub i_product: u8,
    pub i_serial_number: u8,
    pub b_num_configurations: u8,
}

/// A device descriptor, as the guest is given it.
#[derive(Debug, Clone, Copy, PartialEq, Eq, Structural)]
pub struct DeviceDescriptor {
    pub length: u8,
    pub descriptor_type: u8,
    pub usb_version_bcd: u16,
    pub device_class: u8,
    pub device_subclass: u8,
    pub device_protocol: u8,
    pub max_packet_size0: u8,
    pub vendor_id: u16,
    pub product_id: u16,
    pub device_version_bcd: u16,
    pub manufacturer_index: u8,
    pub product_index: u8,
    pub serial_number_index: u8,
    pub num_configurations: u8,
}

impl DeviceDescriptor {
    /// The descriptor that the guest is given for `raw`.
    pub open spec fn of(raw: RawDeviceDescriptor) -> DeviceDescriptor {
        DeviceDescriptor {
            length: raw.b_length,
            descriptor_type: raw.b_descriptor_type,
            usb_version_bcd: raw.bcd_usb,
            device_class: raw.b_device_class,
            device_subclass: raw.b_device_sub_class,
            device_protocol: raw.b_device_protocol,
            max_packet_size0: raw.b_max_packet_size0,
            vendor_id: raw.id_vendor,
            product_id: raw.id_product,
            device_version_bcd: raw.bcd_device,
            manufacturer_index: raw.i_manufacturer,
            product_index: raw.i_product,
            serial_number_index: raw.i_serial_number,
            num_configurations: raw.b_num_configurations,
        }
    }

    /// The descriptor that the guest is given for `raw`.
    pub fn from_raw(raw: &RawDeviceDescriptor) -> (descriptor: DeviceDescriptor)
        ensures
            descriptor == Self::of(*raw),
    {
        DeviceDescriptor {
            length: raw.b_length,
            descriptor_type: raw.b_descriptor_type,
            usb_version_bcd: raw.bcd_usb,
            device_class: raw.b_device_class,
            device_subclass: raw.b_device_sub_class,
            device_protocol: raw.b_device_protocol,
            max_packet_size0: raw.b_max_packet_size0,
            vendor_id: raw.id_vendor,
            product_id: raw.id_product,
            device_version_bcd: raw.bcd_device,
            manufacturer_index: raw.i_manufacturer,
            product_index: raw.i_product,
            serial_number_index: raw.i_serial_number,
            num_configurations: raw.b_num_configurations,
        }
    }
}

/// An endpoint descriptor, as libusb reads it.
#[derive(Debug, Clone, Copy, PartialEq, Eq, Structural)]
pub struct RawEndpoint {
    pub b_length: u8,
    pub b_descriptor_type: u8,
    pub b_endpoint_address: u8,
    pub bm_attributes: u8,
    pub w_max_packet_size: u16,
    pub b_interval: u8,
    pub b_refresh: u8,
    pub b_synch_address: u8,
}

/// An endpoint descriptor, as the guest is given it.
#[derive(Debug, Clone, Copy, PartialEq, Eq, Structural)]
pub struct EndpointDescriptor {
    pub length: u8,
    pub descriptor_type: u8,
    pub endpoint_address: u8,
    pub attributes: u8,
    pub max_packet_size: u16,
    pub interval: u8,
    pub refresh: u8,
    pub synch_address: u8,
}

impl EndpointDescriptor {
    /// The descriptor that the guest is given for `raw`.
    pub open spec fn of(raw: RawEndpoint) -> EndpointDescriptor {
        EndpointDescriptor {
            length: raw.b_length,
            descriptor_type: raw.b_descriptor_type,
            endpoint_address: raw.b_endpoint_address,
            attributes: raw.bm_attributes,
            max_packet_size: raw.w_max_packet_size,
            interval: raw.b_interval,
            refresh: raw.b_refresh,
            synch_address: raw.b_synch_address,
        }
    }

    /// The descriptor that the guest is given for `raw`.
    pub fn from_raw(raw: &RawEndpoint) -> (descriptor: EndpointDescriptor)
        ensures
            descriptor == Self::of(*raw),
    {
        EndpointDescriptor {
            length: raw.b_length,
            descriptor_type: raw.b_descriptor_type,
            endpoint_address: raw.b_endpoint_address,
            attributes: raw.bm_attributes,
            max_packet_size: raw.w_max_packet_size,
            interval: raw.b_interval,
            refresh: raw.b_refresh,
            synch_address: raw.b_synch_address,
        }
    }
}

/// One alternate setting of an interface, as libusb reads it, with its endpoints.
#[derive(Debug)]
pub struct RawAltSetting {
    pub b_length: u8,
    pub b_descriptor_type: u8,
    pub b_interface_number: u8,
    pub b_alternate_setting: u8,
    pub b_interface_class: u8,
    pub b_interface_sub_class: u8,
    pub b_interface_protocol: u8,
    pub i_interface: u8,
    pub endpoints: Vec<RawEndpoint>,
}

/// One alternate setting of an interface, as the guest is given it.
#[derive(Debug)]
pub struct InterfaceDescriptor {
    pub length: u8,
    pub descriptor_type: u8,
    pub interface_number: u8,
    pub alternate_setting: u8,
    pub interface_class: u8,
    pub interface_subclass: u8,
    pub interface_protocol: u8,
    pub interface_index: u8,
    pub endpoints: Vec<EndpointDescriptor>,
}

impl InterfaceDescriptor {
    /// Whether `self` is what the guest is given for `raw`: the same numbers, and its
    /// endpoints in their order.
    pub open spec fn describes(self, raw: RawAltSetting) -> bool {
        &&& self.length == raw.b_length
        &&& self.descriptor_type == raw.b_descriptor_type
        &&& self.interface_number == raw.b_interface_number
        &&& self.alternate_setting == raw.b_alternate_setting
        &&& self.interface_class == raw.b_interface_class
        &&& self.interface_subclass == raw.b_interface_sub_class
        &&& self.interface_protocol == raw.b_interface_protocol
        &&& self.interface_index == raw.i_interface
        &&& self.endpoints@ == raw.endpoints@.map_values(|e: RawEndpoint| EndpointDescriptor::of(e))
    }

    /// The descriptor that the guest is given for `raw`.
    pub fn from_raw(raw: &RawAltSetting) -> (descriptor: InterfaceDescriptor)
        ensures
            descriptor.describes(*raw),
    {
        let mut endpoints: Vec<EndpointDescriptor> = Vec::new();
        let mut k: usize = 0;
        while k < raw.endpoints.len()
            invariant
                k <= raw.endpoints@.len(),
                endpoints@.len() == k,
                forall|i: int|
                    0 <= i < k ==> endpoints@[i] == EndpointDescriptor::of(raw.endpoints@[i]),
            decreases raw.endpoints@.len() - k,
        {
            endpoints.push(EndpointDescriptor::from_raw(&raw.endpoints[k]));
            k = k + 1;
        }
        assert(endpoints@ =~= raw.endpoints@.map_values(
            |e: RawEndpoint| EndpointDescriptor::of(e),
        ));
        InterfaceDescriptor {
            length: raw.b_length,
            descriptor_type: raw.b_descriptor_type,
            interface_number: raw.b_interface_number,
            alternate_setting: raw.b_alternate_setting,
            interface_class: raw.b_interface_class,
            interface_subclass: raw.b_interface_sub_class,
            interface_protocol: raw.b_interface_protocol,
            interface_index: raw.i_interface,
            endpoints,
        }
    }
}

/// An interface, as libusb reads it: its alternate settings.
#[derive(Debug)]
pub struct RawInterface {
    pub altsettings: Vec<RawAltSetting>,
}

/// A configuration descriptor, as libusb reads it, with its interfaces.
#[derive(Debug)]
pub struct RawConfig {
    pub b_length: u8,
    pub b_descriptor_type: u8,
    pub w_total_length: u16,
    pub b_configuration_value: u8,
    pub i_configuration: u8,
    pub bm_attributes: u8,
    pub b_max_power: u8,
    pub interfaces: Vec<RawInterface>,
}

/// A configuration descriptor, as the guest is given it.
#[derive(Debug)]
pub struct ConfigurationDescriptor {
    pub length: u8,
    pub descriptor_type: u8,
    pub total_length: u16,
    pub configuration_value: u8,
    pub configuration_index: u8,
    pub attributes: u8,
    pub max_power: u8,
    pub interfaces: Vec<InterfaceDescriptor>,
}

/// The number of elements that a count of libusb stands for: none where it is negative.
pub fn element_count(count: i32) -> (elements: usize)
    ensures
        elements == if count > 0 {
            count as int
        } else {
            0
        },
{
    if count > 0 {
        count as usize
    } else {
        0
    }
}

/// The alternate settings of all `interfaces`, one interface after the other.
pub open spec fn alt_settings(interfaces: Seq<RawInterface>) -> Seq<RawAltSetting>
    decreases interfaces.len(),
{
    if interfaces.len() == 0 {
        Seq::empty()
    } else {
        alt_settings(interfaces.drop_last()) + interfaces.last().altsettings@
    }
}

/// Whether `descriptors` are what the guest is given for the alternate settings `raw`.
pub open spec fn describe_all(
    descriptors: Seq<InterfaceDescriptor>,
    raw: Seq<RawAltSetting>,
) -> bool {
    &&& descriptors.len() == raw.len()
    &&& forall|i: int| 0 <= i < raw.len() ==> (#[trigger] descriptors[i]).describes(raw[i])
}

impl ConfigurationDescriptor {
    /// Whether `self` is what the guest is given for `raw`: the same numbers, and one
    /// descriptor for each alternate setting of each interface, in their order.
    pub open spec fn describes(self, raw: RawConfig) -> bool {
        &&& self.length == raw.b_length
        &&& self.descriptor_type == raw.b_descriptor_type
        &&& self.total_length == raw.w_total_length
        &&& self.configuration_value == raw.b_configuration_value
        &&& self.configuration_index == raw.i_configuration
        &&& self.attributes == raw.bm_attributes
        &&& self.max_power == raw.b_max_power
        &&& describe_all(self.interfaces@, alt_settings(raw.interfaces@))
    }
}

/// The descriptor that the guest is given for the configuration `raw`.
pub fn generate_config_descriptor(raw: &RawConfig) -> (descriptor: ConfigurationDescriptor)
    ensures
        descriptor.describes(*raw),
{
    let mut interfaces: Vec<InterfaceDescriptor> = Vec::new();
    let mut i: usize = 0;
    assert(raw.interfaces@.take(0) =~= Seq::empty());
    while i < raw.interfaces.len()
        invariant
            i <= raw.interfaces@.len(),
            describe_all(interfaces@, alt_settings(raw.interfaces@.take(i as int))),
        decreases raw.interfaces@.len() - i,
    {
        let interface = &raw.interfaces[i];
        let ghost before = alt_settings(raw.interfaces@.take(i as int));
        let ghost settings = interface.altsettings@;
        let mut j: usize = 0;
        assert(before + settings.take(0) =~= before);
        while j < interface.altsettings.len()
            invariant
                j <= interface.altsettings@.len(),
                settings == interface.altsettings@,
                describe_all(interfaces@, before + settings.take(j as int)),
            decreases interface.altsettings@.len() - j,
        {
            let ghost earlier = interfaces@;
            interfaces.push(InterfaceDescriptor::from_raw(&interface.altsettings[j]));
            proof {
                let now = before + settings.take(j + 1);
                assert forall|n: int| 0 <= n < now.len() implies (
                #[trigger] interfaces@[n]).describes(now[n]) by {
                    if n < earlier.len() {
                        assert(interfaces@[n] == earlier[n]);
                        assert(now[n] == (before + settings.take(j as int))[n]);
                    }
                }
            }
            j = j + 1;
        }
        proof {
            let next = raw.interfaces@.take(i + 1);
            assert(next.drop_last() =~= raw.interfaces@.take(i as int));
            assert(settings.take(j as int) =~= settings);
            assert(next.last() == *interface);
        }
        i = i + 1;
    }
    assert(raw.interfaces@.take(i as int) =~= raw.interfaces@);
    ConfigurationDescriptor {
        length: raw.b_length,
        descriptor_type: raw.b_descriptor_type,
        total_length: raw.w_total_length,
        configuration_value: raw.b_configuration_value,
        configuration_index: raw.i_configuration,
        attributes: raw.bm_attributes,
        max_power: raw.b_max_power,
        interfaces,
    }
}

/// Answer a request for a configuration descriptor from the status that libusb returned
/// and the configuration that it read.
pub fn config_descriptor_reply(status: i32, config: &Option<RawConfig>) -> (reply: Result<
    ConfigurationDescriptor,
    crate::errors::LibusbError,
>)
    requires
        status >= 0 ==> config is Some,
    ensures
        match reply {
            Ok(descriptor) => status >= 0 && descriptor.describes(config->0),
            Err(error) => status < 0 && error == crate::errors::LibusbError::of_code(status as int),
        },
{
    match config {
        Some(raw) if status >= 0 => Ok(generate_config_descriptor(raw)),
        _ => Err(crate::errors::LibusbError::from_raw(status)),
    }
}

/// Every alternate setting of every interface has its place among the descriptors: those of
/// interface `i` follow all those of the interfaces before it.
pub proof fn law_alt_setting_place(interfaces: Seq<RawInterface>, i: int, j: int)
    requires
        0 <= i < interfaces.len(),
        0 <= j < interfaces[i].altsettings@.len(),
    ensures
        alt_settings(interfaces.take(i)).len() + j < alt_settings(interfaces).len(),
        alt_settings(interfaces)[alt_settings(interfaces.take(i)).len() + j]
            == interfaces[i].altsettings@[j],
    decreases interfaces.len(),
{
    let front = interfaces.drop_last();
    if i == interfaces.len() - 1 {
        assert(interfaces.take(i) =~= front);
    } else {
        law_alt_setting_place(front, i, j);
        assert(front.take(i) =~= interfaces.take(i));
    }
}

/// Every descriptor is that of some alternate setting of some interface.
pub proof fn law_descriptors_have_a_source(interfaces: Seq<RawInterface>, n: int)
    requires
        0 <= n < alt_settings(interfaces).len(),
    ensures
        exists|i: int, j: int|
            0 <= i < interfaces.len() && 0 <= j < interfaces[i].altsettings@.len()
                && #[trigger] interfaces[i].altsettings@[j] == alt_settings(interfaces)[n],
    decreases interfaces.len(),
{
    let front = interfaces.drop_last();
    let last = interfaces.len() - 1;
    if n < alt_settings(front).len() {
        law_descriptors_have_a_source(front, n);
        let (i, j) = choose|i: int, j: int|
            0 <= i < front.len() && 0 <= j < front[i].altsettings@.len()
                && #[trigger] front[i].altsettings@[j] == alt_settings(front)[n];
        assert(interfaces[i].altsettings@[j] == alt_settings(interfaces)[n]);
    } else {
        let j = n - alt_settings(front).len();
        assert(interfaces[last].altsettings@[j] == alt_settings(interfaces)[n]);
    }
}

} // verus!
