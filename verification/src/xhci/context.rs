//! Slot and endpoint contexts: the records that tell the host controller
//! about a device and its endpoints.

use vstd::prelude::*;

verus! {

/// Size of one context in bytes.
pub const CONTEXT_SIZE: u64 = 0x20;

/// Endpoint type of a control endpoint.
pub const ENDPOINT_TYPE_CONTROL: u8 = 4;

/// Endpoint type of an interrupt endpoint towards the host.
pub const ENDPOINT_TYPE_INTERRUPT_IN: u8 = 7;

/// Number of times the controller tries a transaction again.
pub const ERROR_COUNT: u8 = 3;

/// Device context index of the control endpoint.
pub const DCI_CONTROL: u8 = 1;

/// The first dword of a slot context: the speed in bits 20 to 23 and the
/// index of the last valid endpoint context in bits 27 to 31. The route
/// string is zero: the device sits at a root hub port.
pub open spec fn spec_slot_context_0(speed: u8, entries: u8) -> u32 {
    ((speed % 0x10) * 0x10_0000 + (entries % 0x20) * 0x800_0000) as u32
}

/// The second dword of a slot context: the root hub port in bits 16 to 23.
pub open spec fn spec_slot_context_1(port: u8) -> u32 {
    (port * 0x1_0000) as u32
}

/// The five dwords of an endpoint context that the driver fills.
#[derive(Clone, Copy, Debug, PartialEq, Eq, Structural)]
pub struct EndpointContext {
    pub d0: u32,
    pub d1: u32,
    pub d2: u32,
    pub d3: u32,
    pub d4: u32,
}

/// The context of an endpoint of type `endpoint_type` whose transfer ring
/// begins at `ring`: the interval in bits 16 to 23 of the first dword; the
/// error count in bits 1 and 2, the type in bits 3 to 5 and the largest
/// packet in bits 16 to 31 of the second; the ring's address with the
/// dequeue cycle state set in the third and fourth; the average length of
/// a transfer in the fifth.
pub open spec fn spec_endpoint_context(
    endpoint_type: u8,
    max_packet_size: u16,
    interval: u8,
    ring: u64,
    average_length: u16,
) -> EndpointContext {
    EndpointContext {
        d0: (interval * 0x1_0000) as u32,
        d1: (ERROR_COUNT * 2 + (endpoint_type % 8) * 8 + max_packet_size * 0x1_0000) as u32,
        d2: (ring % 0x1_0000_0000 - ring % 0x10 + 1) as u32,
        d3: (ring / 0x1_0000_0000) as u32,
        d4: average_length as u32,
    }
}

/// Device context index of the endpoint towards the host with the number
/// `endpoint`: twice the number, and one.
pub open spec fn spec_dci_in(endpoint: u8) -> u8 {
    (2 * (endpoint % 0x10) + 1) as u8
}

/// The interval field for an endpoint whose descriptor states the polling
/// interval `interval`: one less, and 0 for 0.
pub open spec fn spec_interval_field(interval: u8) -> u8 {
    if interval == 0 {
        0
    } else {
        (interval - 1) as u8
    }
}

/// The flags of an input control context that add the slot context and the
/// context of index `dci`: bit 0 and bit `dci`.
pub open spec fn spec_add_flags(dci: u8) -> u32 {
    1u32 | (1u32 << (dci % 0x20))
}

/// The first dword of a slot context; see `spec_slot_context_0`.
#[verifier::when_used_as_spec(spec_slot_context_0)]
pub fn slot_context_0(speed: u8, entries: u8) -> (dword: u32)
    ensures
        dword == spec_slot_context_0(speed, entries),
{
    ((speed % 0x10) as u32) * 0x10_0000 + ((entries % 0x20) as u32) * 0x800_0000
}

/// The second dword of a slot context; see `spec_slot_context_1`.
#[verifier::when_used_as_spec(spec_slot_context_1)]
pub fn slot_context_1(port: u8) -> (dword: u32)
    ensures
        dword == spec_slot_context_1(port),
{
    (port as u32) * 0x1_0000
}

/// The context of an endpoint; see `spec_endpoint_context`.
#[verifier::when_used_as_spec(spec_endpoint_context)]
pub fn endpoint_context(
    endpoint_type: u8,
    max_packet_size: u16,
    interval: u8,
    ring: u64,
    average_length: u16,
) -> (context: EndpointContext)
    ensures
        context == spec_endpoint_context(
            endpoint_type,
            max_packet_size,
            interval,
            ring,
            average_length,
        ),
{
    let low: u64 = ring % 0x1_0000_0000;
    EndpointContext {
        d0: (interval as u32) * 0x1_0000,
        d1: (ERROR_COUNT as u32) * 2 + ((endpoint_type % 8) as u32) * 8 + (max_packet_size as u32)
            * 0x1_0000,
        d2: (low - ring % 0x10 + 1) as u32,
        d3: (ring / 0x1_0000_0000) as u32,
        d4: average_length as u32,
    }
}

/// Device context index of an endpoint towards the host; between 3 and 31
/// for an endpoint number other than 0.
#[verifier::when_used_as_spec(spec_dci_in)]
pub fn dci_in(endpoint: u8) -> (dci: u8)
    ensures
        dci == spec_dci_in(endpoint),
        3 <= dci || endpoint % 0x10 == 0,
        dci <= 31,
{
    2 * (endpoint % 0x10) + 1
}

/// The interval field for a polling interval; see `spec_interval_field`.
#[verifier::when_used_as_spec(spec_interval_field)]
pub fn interval_field(interval: u8) -> (field: u8)
    ensures
        field == spec_interval_field(interval),
{
    if interval == 0 {
        0
    } else {
        interval - 1
    }
}

/// The add flags of an input control context; see `spec_add_flags`.
#[verifier::when_used_as_spec(spec_add_flags)]
pub fn add_flags(dci: u8) -> (flags: u32)
    ensures
        flags == spec_add_flags(dci),
{
    1u32 | (1u32 << (dci % 0x20))
}

} // verus!
