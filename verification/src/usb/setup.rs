//! Setup packets: the eight bytes that open a control transfer.

use vstd::prelude::*;

verus! {

/// Descriptor type of the device descriptor.
pub const DESCRIPTOR_DEVICE: u8 = 1;

/// Descriptor type of a configuration descriptor.
pub const DESCRIPTOR_CONFIGURATION: u8 = 2;

/// Length of the device descriptor.
pub const DEVICE_DESCRIPTOR_LENGTH: u16 = 18;

/// Standard request that reads a descriptor.
pub const REQUEST_GET_DESCRIPTOR: u8 = 6;

/// Standard request that selects a configuration.
pub const REQUEST_SET_CONFIGURATION: u8 = 9;

/// Request of the HID class that selects boot or report protocol.
pub const REQUEST_SET_PROTOCOL: u8 = 11;

/// Request type of a standard request to the device that returns data.
pub const REQUEST_TYPE_STANDARD_IN: u8 = 0x80;

/// Request type of a standard request to the device that sends none.
pub const REQUEST_TYPE_STANDARD_OUT: u8 = 0x00;

/// Request type of a class request to an interface that sends none.
pub const REQUEST_TYPE_CLASS_INTERFACE_OUT: u8 = 0x21;

/// The boot protocol of the HID class.
pub const HID_BOOT_PROTOCOL: u16 = 0;

/// A setup packet.
#[derive(Clone, Copy, Debug, PartialEq, Eq, Structural)]
pub struct SetupData {
    pub request_type: u8,
    pub request: u8,
    pub value: u16,
    pub index: u16,
    pub length: u16,
}

impl SetupData {
    /// The request for `length` bytes of the descriptor of type
    /// `descriptor_type` and index `descriptor_index`.
    pub open spec fn spec_get_descriptor(
        descriptor_type: u8,
        descriptor_index: u8,
        length: u16,
    ) -> SetupData {
        SetupData {
            request_type: REQUEST_TYPE_STANDARD_IN,
            request: REQUEST_GET_DESCRIPTOR,
            value: (descriptor_type * 0x100 + descriptor_index) as u16,
            index: 0,
            length,
        }
    }

    /// The request that selects the configuration of value `configuration`.
    pub open spec fn spec_set_configuration(configuration: u8) -> SetupData {
        SetupData {
            request_type: REQUEST_TYPE_STANDARD_OUT,
            request: REQUEST_SET_CONFIGURATION,
            value: configuration as u16,
            index: 0,
            length: 0,
        }
    }

    /// The request that puts the HID interface `interface` into the boot
    /// protocol.
    pub open spec fn spec_set_boot_protocol(interface: u8) -> SetupData {
        SetupData {
            request_type: REQUEST_TYPE_CLASS_INTERFACE_OUT,
            request: REQUEST_SET_PROTOCOL,
            value: HID_BOOT_PROTOCOL,
            index: interface as u16,
            length: 0,
        }
    }

    /// The packet as the 64-bit value that a setup stage carries: the
    /// request type in the lowest byte, then the request, the value, the
    /// index and the length.
    pub open spec fn spec_parameter(self) -> u64 {
        (self.request_type + self.request * 0x100 + self.value * 0x1_0000 + self.index
            * 0x1_0000_0000 + self.length * 0x1_0000_0000_0000) as u64
    }

    /// Whether the device returns data: bit 7 of the request type.
    pub open spec fn spec_device_to_host(self) -> bool {
        self.request_type >= 0x80
    }

    /// The request for a descriptor; see `spec_get_descriptor`.
    pub fn get_descriptor(descriptor_type: u8, descriptor_index: u8, length: u16) -> (setup: Self)
        ensures
            setup == Self::spec_get_descriptor(descriptor_type, descriptor_index, length),
    {
        SetupData {
            request_type: REQUEST_TYPE_STANDARD_IN,
            request: REQUEST_GET_DESCRIPTOR,
            value: (descriptor_type as u16) * 0x100 + descriptor_index as u16,
            index: 0,
            length,
        }
    }

    /// The request that selects a configuration; see `spec_set_configuration`.
    pub fn set_configuration(configuration: u8) -> (setup: Self)
        ensures
            setup == Self::spec_set_configuration(configuration),
    {
        SetupData {
            request_type: REQUEST_TYPE_STANDARD_OUT,
            request: REQUEST_SET_CONFIGURATION,
            value: configuration as u16,
            index: 0,
            length: 0,
        }
    }

    /// The request that selects the boot protocol; see
    /// `spec_set_boot_protocol`.
    pub fn set_boot_protocol(interface: u8) -> (setup: Self)
        ensures
            setup == Self::spec_set_boot_protocol(interface),
    {
        SetupData {
            request_type: REQUEST_TYPE_CLASS_INTERFACE_OUT,
            request: REQUEST_SET_PROTOCOL,
            value: HID_BOOT_PROTOCOL,
            index: interface as u16,
            length: 0,
        }
    }

    /// The packet as a 64-bit value; see `spec_parameter`.
    #[verifier::when_used_as_spec(spec_parameter)]
    pub fn parameter(self) -> (parameter: u64)
        ensures
            parameter == self.spec_parameter(),
    {
        self.request_type as u64 + (self.request as u64) * 0x100 + (self.value as u64) * 0x1_0000
            + (self.index as u64) * 0x1_0000_0000 + (self.length as u64) * 0x1_0000_0000_0000
    }

    /// Whether the device returns data.
    #[verifier::when_used_as_spec(spec_device_to_host)]
    pub fn device_to_host(self) -> (data_in: bool)
        ensures
            data_in == self.spec_device_to_host(),
    {
        self.request_type >= 0x80
    }
}

} // verus!
