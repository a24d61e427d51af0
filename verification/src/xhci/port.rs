//! Root hub ports: what a port's status register says, which values reset a
//! port, and how far a port has come on its way to a configured device.

use vstd::prelude::*;

verus! {

/// The bits of a port status register that keep their meaning when written
/// back: power, speed-independent controls and wake enables. All bits that
/// act when written as 1 are left out.
pub const PORTSC_PRESERVE_MASK: u32 = 0x0e00_c3e0;

/// Port reset (bit 4) together with connect status change (bit 17).
pub const PORTSC_RESET_BITS: u32 = 0x0002_0010;

/// Port reset change (bit 21).
pub const PORTSC_RESET_CHANGE_BIT: u32 = 0x0020_0000;

/// Whether a device is attached: bit 0.
pub open spec fn portsc_connected(portsc: u32) -> bool {
    portsc % 2 == 1
}

/// Whether the port is enabled: bit 1.
pub open spec fn portsc_enabled(portsc: u32) -> bool {
    (portsc / 2) % 2 == 1
}

/// Whether a reset is under way: bit 4.
pub open spec fn portsc_in_reset(portsc: u32) -> bool {
    (portsc / 0x10) % 2 == 1
}

/// Whether a reset has ended since the flag was last cleared: bit 21.
pub open spec fn portsc_reset_changed(portsc: u32) -> bool {
    (portsc / 0x20_0000) % 2 == 1
}

/// Speed of the attached device: bits 10 to 13.
pub open spec fn portsc_speed(portsc: u32) -> u8 {
    ((portsc / 0x400) % 0x10) as u8
}

/// Largest packet that the control endpoint of a device of the given speed
/// takes before its descriptor is known: 512 bytes at super speed (4), 64
/// at high speed (3), 8 otherwise.
pub open spec fn spec_max_packet_size(speed: u8) -> u16 {
    if speed == 4 {
        512
    } else if speed == 3 {
        64
    } else {
        8
    }
}

/// Largest packet of the control endpoint of a device of the given speed.
pub fn max_packet_size(speed: u8) -> (size: u16)
    ensures
        size == spec_max_packet_size(speed),
{
    if speed == 4 {
        512
    } else if speed == 3 {
        64
    } else {
        8
    }
}

/// The value that starts a reset of the port and acknowledges the change
/// of its connect status, keeping what is to be kept of `portsc`.
pub open spec fn spec_reset_value(portsc: u32) -> u32 {
    (portsc & PORTSC_PRESERVE_MASK) | PORTSC_RESET_BITS
}

/// The value that acknowledges the end of a reset, keeping what is to be
/// kept of `portsc`.
pub open spec fn spec_clear_reset_change_value(portsc: u32) -> u32 {
    (portsc & PORTSC_PRESERVE_MASK) | PORTSC_RESET_CHANGE_BIT
}

/// The reset value sets the reset bit, leaves the enable bit clear (a 1
/// written there would disable the port) and keeps the power bit.
pub proof fn lemma_reset_value(portsc: u32)
    ensures
        portsc_in_reset(spec_reset_value(portsc)),
        !portsc_enabled(spec_reset_value(portsc)),
        !portsc_reset_changed(spec_reset_value(portsc)),
        spec_reset_value(portsc) & 0x200 == portsc & 0x200,
{
    assert((((portsc & 0x0e00_c3e0u32) | 0x0002_0010u32) / 0x10) % 2 == 1
        && (((portsc & 0x0e00_c3e0u32) | 0x0002_0010u32) / 2) % 2 == 0
        && (((portsc & 0x0e00_c3e0u32) | 0x0002_0010u32) / 0x20_0000) % 2 == 0
        && ((portsc & 0x0e00_c3e0u32) | 0x0002_0010u32) & 0x200 == portsc & 0x200)
        by (bit_vector);
}

/// The acknowledgement sets the reset change bit alone among the bits that
/// act on a write: it starts no reset and does not disable the port.
pub proof fn lemma_clear_reset_change_value(portsc: u32)
    ensures
        portsc_reset_changed(spec_clear_reset_change_value(portsc)),
        !portsc_in_reset(spec_clear_reset_change_value(portsc)),
        !portsc_enabled(spec_clear_reset_change_value(portsc)),
        spec_clear_reset_change_value(portsc) & 0x200 == portsc & 0x200,
{
    assert((((portsc & 0x0e00_c3e0u32) | 0x0020_0000u32) / 0x20_0000) % 2 == 1
        && (((portsc & 0x0e00_c3e0u32) | 0x0020_0000u32) / 0x10) % 2 == 0
        && (((portsc & 0x0e00_c3e0u32) | 0x0020_0000u32) / 2) % 2 == 0
        && ((portsc & 0x0e00_c3e0u32) | 0x0020_0000u32) & 0x200 == portsc & 0x200)
        by (bit_vector);
}

/// A root hub port as it was when its status register was read: the port's
/// number, counted from 1, and the register's value.
#[derive(Clone, Copy, Debug, PartialEq, Eq, Structural)]
pub struct Port {
    pub number: u8,
    pub portsc: u32,
}

impl Port {
    /// The port's number, counted from 1.
    pub fn number(&self) -> (number: u8)
        ensures
            number == self.number,
    {
        self.number
    }

    /// Whether a device is attached.
    pub fn is_connected(&self) -> (connected: bool)
        ensures
            connected == portsc_connected(self.portsc),
    {
        self.portsc % 2 == 1
    }

    /// Whether the port is enabled.
    pub fn is_enabled(&self) -> (enabled: bool)
        ensures
            enabled == portsc_enabled(self.portsc),
    {
        (self.portsc / 2) % 2 == 1
    }

    /// Whether a reset has ended since the flag was last cleared.
    pub fn is_port_reset_changed(&self) -> (changed: bool)
        ensures
            changed == portsc_reset_changed(self.portsc),
    {
        (self.portsc / 0x20_0000) % 2 == 1
    }

    /// Speed of the attached device.
    pub fn speed(&self) -> (speed: u8)
        ensures
            speed == portsc_speed(self.portsc),
    {
        ((self.portsc / 0x400) % 0x10) as u8
    }

    /// The value to write to the status register to reset the port.
    pub fn reset_value(&self) -> (value: u32)
        ensures
            value == spec_reset_value(self.portsc),
    {
        (self.portsc & PORTSC_PRESERVE_MASK) | PORTSC_RESET_BITS
    }

    /// The value to write to the status register to acknowledge the end of
    /// a reset.
    pub fn clear_reset_change_value(&self) -> (value: u32)
        ensures
            value == spec_clear_reset_change_value(self.portsc),
    {
        (self.portsc & PORTSC_PRESERVE_MASK) | PORTSC_RESET_CHANGE_BIT
    }
}

/// How far the configuration of the device at a port has come.
#[derive(Clone, Copy, Debug, PartialEq, Eq, Structural)]
pub enum ConfigPhase {
    /// No device is being configured at the port.
    NotConnected,
    /// A device is attached and waits for another port to finish with the
    /// default address.
    WaitingAddressed,
    /// The port is being reset.
    ResettingPort,
    /// A device slot has been asked for.
    EnablingSlot,
    /// The device is being given its address.
    AddressingDevice,
    /// The device's descriptors are being read.
    InitializingDevice,
    /// The device's endpoints are being set up.
    ConfiguringEndpoints,
    /// The device is ready for use.
    Configured,
}

/// The four states of a port as its user sees them.
#[derive(Clone, Copy, Debug, PartialEq, Eq, Structural)]
pub enum PortState {
    Disconnected,
    Connecting,
    Addressing,
    Configured,
}

impl PortState {
    /// The state's place on the way from a port without a device to a
    /// configured device.
    pub open spec fn rank(self) -> nat {
        match self {
            PortState::Disconnected => 0,
            PortState::Connecting => 1,
            PortState::Addressing => 2,
            PortState::Configured => 3,
        }
    }
}

impl ConfigPhase {
    /// The user's state that a phase belongs to.
    pub open spec fn spec_port_state(self) -> PortState {
        match self {
            ConfigPhase::NotConnected => PortState::Disconnected,
            ConfigPhase::WaitingAddressed | ConfigPhase::ResettingPort => PortState::Connecting,
            ConfigPhase::EnablingSlot
            | ConfigPhase::AddressingDevice
            | ConfigPhase::InitializingDevice
            | ConfigPhase::ConfiguringEndpoints => PortState::Addressing,
            ConfigPhase::Configured => PortState::Configured,
        }
    }

    /// The user's state that the phase belongs to.
    #[verifier::when_used_as_spec(spec_port_state)]
    pub fn port_state(self) -> (state: PortState)
        ensures
            state == self.spec_port_state(),
    {
        match self {
            ConfigPhase::NotConnected => PortState::Disconnected,
            ConfigPhase::WaitingAddressed | ConfigPhase::ResettingPort => PortState::Connecting,
            ConfigPhase::EnablingSlot
            | ConfigPhase::AddressingDevice
            | ConfigPhase::InitializingDevice
            | ConfigPhase::ConfiguringEndpoints => PortState::Addressing,
            ConfigPhase::Configured => PortState::Configured,
        }
    }

    /// Whether the port uses the default address: from the start of its
    /// reset until its device has an address of its own. Only one port may
    /// be in such a phase at a time.
    pub open spec fn uses_default_address(self) -> bool {
        self == ConfigPhase::ResettingPort || self == ConfigPhase::EnablingSlot || self
            == ConfigPhase::AddressingDevice
    }
}

} // verus!
