//! The configuration descriptor: a chain of descriptors, each led by its
//! length and its type, in which the interfaces and their endpoints follow
//! the configuration itself.

use vstd::prelude::*;

verus! {

/// Descriptor type of an interface descriptor.
pub const DESCRIPTOR_INTERFACE: u8 = 4;

/// Descriptor type of an endpoint descriptor.
pub const DESCRIPTOR_ENDPOINT: u8 = 5;

/// Length of a configuration descriptor proper.
pub const CONFIGURATION_LENGTH: usize = 9;

/// Least length of an interface descriptor.
pub const INTERFACE_LENGTH: u8 = 9;

/// Least length of an endpoint descriptor.
pub const ENDPOINT_LENGTH: u8 = 7;

/// Interface class of human interface devices.
pub const CLASS_HID: u8 = 3;

/// Interface sub class of devices that support the boot protocol.
pub const SUBCLASS_BOOT: u8 = 1;

/// Interface protocol of a mouse.
pub const PROTOCOL_MOUSE: u8 = 2;

/// What the driver needs to know of a boot-protocol mouse: the value that
/// selects its configuration, the number of its interface, and of the
/// interrupt endpoint that delivers its reports the number, the largest
/// packet and the polling interval.
#[derive(Clone, Copy, Debug, PartialEq, Eq, Structural)]
pub struct MouseEndpoint {
    pub configuration: u8,
    pub interface: u8,
    pub endpoint: u8,
    pub max_packet_size: u16,
    pub interval: u8,
}

/// Where the chain of descriptors in `bytes` ends: at the total length that
/// the configuration descriptor states, or at the end of `bytes` where that
/// comes first.
pub open spec fn chain_end(bytes: Seq<u8>) -> int {
    let total = bytes[2] + bytes[3] * 0x100;
    if total < bytes.len() {
        total
    } else {
        bytes.len() as int
    }
}

/// Whether the descriptor at `offset` is the interface descriptor of a
/// boot-protocol mouse.
pub open spec fn is_mouse_interface(bytes: Seq<u8>, offset: int) -> bool {
    &&& bytes[offset + 1] == DESCRIPTOR_INTERFACE
    &&& bytes[offset] >= INTERFACE_LENGTH
    &&& bytes[offset + 5] == CLASS_HID
    &&& bytes[offset + 6] == SUBCLASS_BOOT
    &&& bytes[offset + 7] == PROTOCOL_MOUSE
}

/// Whether the descriptor at `offset` is the descriptor of an interrupt
/// endpoint that sends data to the host: bit 7 of its address is set, its
/// number is not 0, and its transfer type, the two low bits of its
/// attributes, is 3.
pub open spec fn is_interrupt_in_endpoint(bytes: Seq<u8>, offset: int) -> bool {
    &&& bytes[offset + 1] == DESCRIPTOR_ENDPOINT
    &&& bytes[offset] >= ENDPOINT_LENGTH
    &&& bytes[offset + 2] >= 0x80
    &&& bytes[offset + 2] % 0x10 != 0
    &&& bytes[offset + 3] % 4 == 3
}

/// The mouse endpoint that the endpoint descriptor at `offset` describes,
/// for the interface `interface` of the configuration in `bytes`.
pub open spec fn endpoint_at(bytes: Seq<u8>, offset: int, interface: u8) -> MouseEndpoint {
    MouseEndpoint {
        configuration: bytes[5],
        interface,
        endpoint: (bytes[offset + 2] % 0x10) as u8,
        max_packet_size: (bytes[offset + 4] + bytes[offset + 5] * 0x100) as u16,
        interval: bytes[offset + 6],
    }
}

/// Follows the chain from `offset`. `interface` is the number of the mouse
/// interface that the descriptors at `offset` belong to, if they belong to
/// one. The search ends with the first interrupt endpoint towards the host
/// of a mouse interface; it ends without result at the end of the chain or
/// at a descriptor whose length is less than 2 or reaches past the end.
pub open spec fn find_from(bytes: Seq<u8>, offset: int, interface: Option<u8>) -> Option<
    MouseEndpoint,
>
    decreases chain_end(bytes) - offset,
{
    if offset < 0 || offset + 2 > chain_end(bytes) {
        None
    } else if bytes[offset] < 2 || offset + bytes[offset] > chain_end(bytes) {
        None
    } else if bytes[offset + 1] == DESCRIPTOR_INTERFACE && bytes[offset] >= INTERFACE_LENGTH {
        find_from(
            bytes,
            offset + bytes[offset],
            if is_mouse_interface(bytes, offset) {
                Some(bytes[offset + 2])
            } else {
                None
            },
        )
    } else if interface is Some && is_interrupt_in_endpoint(bytes, offset) {
        Some(endpoint_at(bytes, offset, interface->0))
    } else {
        find_from(bytes, offset + bytes[offset], interface)
    }
}

/// The mouse endpoint of the configuration whose descriptor, with all that
/// follows it, is `bytes`; `None` where `bytes` does not begin with a
/// configuration descriptor or holds no boot-protocol mouse.
pub open spec fn spec_find_mouse_endpoint(bytes: Seq<u8>) -> Option<MouseEndpoint> {
    if bytes.len() < CONFIGURATION_LENGTH || bytes[1] != crate::usb::setup::DESCRIPTOR_CONFIGURATION {
        None
    } else {
        find_from(bytes, 0, None)
    }
}

/// Searches a configuration descriptor for a boot-protocol mouse.
pub fn find_mouse_endpoint(bytes: &Vec<u8>) -> (found: Option<MouseEndpoint>)
    ensures
        found == spec_find_mouse_endpoint(bytes@),
{
    if bytes.len() < CONFIGURATION_LENGTH || bytes[1] != crate::usb::setup::DESCRIPTOR_CONFIGURATION {
        return None;
    }
    let total = bytes[2] as usize + (bytes[3] as usize) * 0x100;
    let end = if total < bytes.len() {
        total
    } else {
        bytes.len()
    };
    let mut offset: usize = 0;
    let mut interface: Option<u8> = None;
    while offset + 2 <= end
        invariant
            end == chain_end(bytes@),
            end <= bytes@.len(),
            offset <= end <= 0xffff,
            find_from(bytes@, offset as int, interface) == spec_find_mouse_endpoint(bytes@),
        decreases end - offset,
    {
        let length = bytes[offset] as usize;
        if length < 2 || offset + length > end {
            return None;
        }
        let kind = bytes[offset + 1];
        if kind == DESCRIPTOR_INTERFACE && length >= INTERFACE_LENGTH as usize {
            interface = if bytes[offset + 5] == CLASS_HID && bytes[offset + 6] == SUBCLASS_BOOT
                && bytes[offset + 7] == PROTOCOL_MOUSE {
                Some(bytes[offset + 2])
            } else {
                None
            };
        } else if kind == DESCRIPTOR_ENDPOINT && length >= ENDPOINT_LENGTH as usize {
            match interface {
                Some(number) => {
                    if bytes[offset + 2] >= 0x80 && bytes[offset + 2] % 0x10 != 0 && bytes[offset
                        + 3] % 4 == 3 {
                        return Some(
                            MouseEndpoint {
                                configuration: bytes[5],
                                interface: number,
                                endpoint: bytes[offset + 2] % 0x10,
                                max_packet_size: bytes[offset + 4] as u16 + (bytes[offset
                                    + 5] as u16) * 0x100,
                                interval: bytes[offset + 6],
                            },
                        );
                    }
                },
                None => {},
            }
        }
        offset = offset + length;
    }
    None
}

} // verus!
