//! Where the host controller's registers lie, and the values that halt,
//! reset and start it.

use vstd::prelude::*;

verus! {

/// Run/stop: bit 0 of the command register.
pub const USBCMD_RUN_STOP: u32 = 0x1;

/// Host controller reset: bit 1 of the command register.
pub const USBCMD_HOST_CONTROLLER_RESET: u32 = 0x2;

/// Interrupter enable: bit 2 of the command register.
pub const USBCMD_INTERRUPTER_ENABLE: u32 = 0x4;

/// The command register's bits that are cleared before a reset: run/stop,
/// interrupter enable, host system error enable and enable wrap event.
pub const USBCMD_HALT_CLEARS: u32 = 0x40d;

/// The interrupter management value that acknowledges a pending interrupt
/// and enables the interrupter: bits 0 and 1.
pub const IMAN_PENDING_AND_ENABLE: u32 = 0x3;

/// The farthest that a register block may lie from the base address: the
/// offsets are 32-bit values, and a block is a few kilobytes long.
pub const REGISTER_WINDOW: u64 = 0x1_0000_4000;

/// How wide a register is.
#[derive(Clone, Copy, Debug, PartialEq, Eq, Structural)]
pub enum Width {
    Dword,
    Qword,
}

/// A value to be written to the register at `address`.
#[derive(Clone, Copy, Debug, PartialEq, Eq, Structural)]
pub struct MmioWrite {
    pub address: u64,
    pub value: u64,
    pub width: Width,
}

/// The capability registers that the driver needs, as read: the dword that
/// holds the capability length, the first structural parameters, the
/// doorbell offset and the runtime register space offset.
#[derive(Clone, Copy, Debug, PartialEq, Eq, Structural)]
pub struct CapabilityRegisters {
    pub caplength: u32,
    pub hcsparams1: u32,
    pub dboff: u32,
    pub rtsoff: u32,
}

impl CapabilityRegisters {
    /// Length of the capability registers: bits 0 to 7.
    pub open spec fn spec_cap_length(self) -> u8 {
        (self.caplength % 0x100) as u8
    }

    /// Number of device slots: bits 0 to 7 of the structural parameters.
    pub open spec fn spec_max_slots(self) -> u8 {
        (self.hcsparams1 % 0x100) as u8
    }

    /// Number of root hub ports: bits 24 to 31 of the structural
    /// parameters.
    pub open spec fn spec_max_ports(self) -> u8 {
        (self.hcsparams1 / 0x100_0000) as u8
    }

    /// Offset of the doorbell array: the register with its two low bits
    /// cleared.
    pub open spec fn spec_doorbell_offset(self) -> u32 {
        (self.dboff - self.dboff % 4) as u32
    }

    /// Offset of the runtime registers: the register with its five low
    /// bits cleared.
    pub open spec fn spec_runtime_offset(self) -> u32 {
        (self.rtsoff - self.rtsoff % 32) as u32
    }

    /// Length of the capability registers.
    #[verifier::when_used_as_spec(spec_cap_length)]
    pub fn cap_length(self) -> (length: u8)
        ensures
            length == self.spec_cap_length(),
    {
        (self.caplength % 0x100) as u8
    }

    /// Number of device slots.
    #[verifier::when_used_as_spec(spec_max_slots)]
    pub fn max_slots(self) -> (slots: u8)
        ensures
            slots == self.spec_max_slots(),
    {
        (self.hcsparams1 % 0x100) as u8
    }

    /// Number of root hub ports.
    #[verifier::when_used_as_spec(spec_max_ports)]
    pub fn max_ports(self) -> (ports: u8)
        ensures
            ports == self.spec_max_ports(),
    {
        (self.hcsparams1 / 0x100_0000) as u8
    }

    /// Offset of the doorbell array.
    #[verifier::when_used_as_spec(spec_doorbell_offset)]
    pub fn doorbell_offset(self) -> (offset: u32)
        ensures
            offset == self.spec_doorbell_offset(),
    {
        self.dboff - self.dboff % 4
    }

    /// Offset of the runtime registers.
    #[verifier::when_used_as_spec(spec_runtime_offset)]
    pub fn runtime_offset(self) -> (offset: u32)
        ensures
            offset == self.spec_runtime_offset(),
    {
        self.rtsoff - self.rtsoff % 32
    }
}

/// The addresses of the four register blocks.
#[derive(Clone, Copy, Debug, PartialEq, Eq, Structural)]
pub struct BlockAddresses {
    pub capability: u64,
    pub operational: u64,
    pub runtime: u64,
    pub doorbell: u64,
}

/// The blocks of a controller at `mmio_base` whose capability registers
/// read `caps`.
pub open spec fn spec_block_addresses(mmio_base: u64, caps: CapabilityRegisters) -> BlockAddresses {
    BlockAddresses {
        capability: mmio_base,
        operational: (mmio_base + caps.spec_cap_length()) as u64,
        runtime: (mmio_base + caps.spec_runtime_offset()) as u64,
        doorbell: (mmio_base + caps.spec_doorbell_offset()) as u64,
    }
}

/// Whether a controller may lie at `mmio_base`: the address is a multiple
/// of 16, as a memory BAR gives it, and every register lies within the
/// address space.
pub open spec fn valid_mmio_base(mmio_base: u64) -> bool {
    mmio_base % 16 == 0 && mmio_base + REGISTER_WINDOW <= u64::MAX
}

/// The register blocks of one controller, each named register reachable by
/// its accessor. Its view is the four block addresses.
#[derive(Clone, Copy, Debug)]
pub struct RegisterBlocks {
    capability: u64,
    operational: u64,
    runtime: u64,
    doorbell: u64,
}

impl View for RegisterBlocks {
    type V = BlockAddresses;

    closed spec fn view(&self) -> BlockAddresses {
        BlockAddresses {
            capability: self.capability,
            operational: self.operational,
            runtime: self.runtime,
            doorbell: self.doorbell,
        }
    }
}

impl RegisterBlocks {
    #[verifier::type_invariant]
    closed spec fn inv(&self) -> bool {
        &&& self.capability <= self.operational <= self.capability + 0x100
        &&& self.capability <= self.runtime <= self.capability + 0x1_0000_0000
        &&& self.capability <= self.doorbell <= self.capability + 0x1_0000_0000
        &&& self.capability + REGISTER_WINDOW <= u64::MAX
    }

    /// Decodes the block addresses, or `None` where `mmio_base` is not
    /// valid.
    pub fn new(mmio_base: u64, caps: CapabilityRegisters) -> (blocks: Option<Self>)
        ensures
            blocks is Some <==> valid_mmio_base(mmio_base),
            blocks matches Some(b) ==> b@ == spec_block_addresses(mmio_base, caps),
    {
        if mmio_base % 16 != 0 || mmio_base > u64::MAX - REGISTER_WINDOW {
            return None;
        }
        Some(
            RegisterBlocks {
                capability: mmio_base,
                operational: mmio_base + caps.cap_length() as u64,
                runtime: mmio_base + caps.runtime_offset() as u64,
                doorbell: mmio_base + caps.doorbell_offset() as u64,
            },
        )
    }

    /// Address of the command register.
    pub fn usbcmd(&self) -> (address: u64)
        ensures
            address == self@.operational,
    {
        self.operational
    }

    /// Address of the status register.
    pub fn usbsts(&self) -> (address: u64)
        ensures
            address == self@.operational + 0x04,
    {
        proof {
            use_type_invariant(self);
        }
        self.operational + 0x04
    }

    /// Address of the command ring control register.
    pub fn crcr(&self) -> (address: u64)
        ensures
            address == self@.operational + 0x18,
    {
        proof {
            use_type_invariant(self);
        }
        self.operational + 0x18
    }

    /// Address of the device context base address array pointer.
    pub fn dcbaap(&self) -> (address: u64)
        ensures
            address == self@.operational + 0x30,
    {
        proof {
            use_type_invariant(self);
        }
        self.operational + 0x30
    }

    /// Address of the configure register.
    pub fn config(&self) -> (address: u64)
        ensures
            address == self@.operational + 0x38,
    {
        proof {
            use_type_invariant(self);
        }
        self.operational + 0x38
    }

    /// Address of the status register of port `port`, counted from 1.
    pub fn portsc(&self, port: u8) -> (address: u64)
        requires
            port >= 1,
        ensures
            address == self@.operational + 0x400 + 0x10 * (port - 1),
    {
        proof {
            use_type_invariant(self);
        }
        self.operational + 0x400 + 0x10 * ((port - 1) as u64)
    }

    /// Address of the primary interrupter's management register.
    pub fn iman(&self) -> (address: u64)
        ensures
            address == self@.runtime + 0x20,
    {
        proof {
            use_type_invariant(self);
        }
        self.runtime + 0x20
    }

    /// Address of the primary interrupter's event ring segment table size.
    pub fn erstsz(&self) -> (address: u64)
        ensures
            address == self@.runtime + 0x28,
    {
        proof {
            use_type_invariant(self);
        }
        self.runtime + 0x28
    }

    /// Address of the primary interrupter's event ring segment table base.
    pub fn erstba(&self) -> (address: u64)
        ensures
            address == self@.runtime + 0x30,
    {
        proof {
            use_type_invariant(self);
        }
        self.runtime + 0x30
    }

    /// Address of the primary interrupter's event ring dequeue pointer.
    pub fn erdp(&self) -> (address: u64)
        ensures
            address == self@.runtime + 0x38,
    {
        proof {
            use_type_invariant(self);
        }
        self.runtime + 0x38
    }

    /// Address of doorbell `index`; doorbell 0 is the command ring's.
    pub fn doorbell_at(&self, index: u8) -> (address: u64)
        ensures
            address == self@.doorbell + 4 * index,
    {
        proof {
            use_type_invariant(self);
        }
        self.doorbell + 4 * (index as u64)
    }
}

/// Whether the controller has stopped: bit 0 of the status register.
pub open spec fn spec_is_halted(usbsts: u32) -> bool {
    usbsts % 2 == 1
}

/// Whether the controller is not yet ready after a reset: bit 11 of the
/// status register.
pub open spec fn spec_is_not_ready(usbsts: u32) -> bool {
    (usbsts / 0x800) % 2 == 1
}

/// Whether a reset is under way: bit 1 of the command register.
pub open spec fn spec_is_resetting(usbcmd: u32) -> bool {
    (usbcmd / 2) % 2 == 1
}

/// The command value that stops the controller and silences it.
pub open spec fn spec_halt_command(usbcmd: u32) -> u32 {
    usbcmd & !USBCMD_HALT_CLEARS
}

/// The command value that starts a reset.
pub open spec fn spec_reset_command(usbcmd: u32) -> u32 {
    usbcmd | USBCMD_HOST_CONTROLLER_RESET
}

/// The command value that lets the controller raise interrupts.
pub open spec fn spec_interrupt_enable_command(usbcmd: u32) -> u32 {
    usbcmd | USBCMD_INTERRUPTER_ENABLE
}

/// The command value that sets the controller running.
pub open spec fn spec_run_command(usbcmd: u32) -> u32 {
    usbcmd | USBCMD_RUN_STOP
}

/// Whether the controller has stopped.
#[verifier::when_used_as_spec(spec_is_halted)]
pub fn is_halted(usbsts: u32) -> (halted: bool)
    ensures
        halted == spec_is_halted(usbsts),
{
    usbsts % 2 == 1
}

/// Whether the controller is not yet ready after a reset.
#[verifier::when_used_as_spec(spec_is_not_ready)]
pub fn is_not_ready(usbsts: u32) -> (not_ready: bool)
    ensures
        not_ready == spec_is_not_ready(usbsts),
{
    (usbsts / 0x800) % 2 == 1
}

/// Whether a reset is under way.
#[verifier::when_used_as_spec(spec_is_resetting)]
pub fn is_resetting(usbcmd: u32) -> (resetting: bool)
    ensures
        resetting == spec_is_resetting(usbcmd),
{
    (usbcmd / 2) % 2 == 1
}

/// The command value that stops the controller and silences it.
#[verifier::when_used_as_spec(spec_halt_command)]
pub fn halt_command(usbcmd: u32) -> (value: u32)
    ensures
        value == spec_halt_command(usbcmd),
{
    usbcmd & !USBCMD_HALT_CLEARS
}

/// The command value that starts a reset.
#[verifier::when_used_as_spec(spec_reset_command)]
pub fn reset_command(usbcmd: u32) -> (value: u32)
    ensures
        value == spec_reset_command(usbcmd),
{
    usbcmd | USBCMD_HOST_CONTROLLER_RESET
}

/// The command value that lets the controller raise interrupts.
#[verifier::when_used_as_spec(spec_interrupt_enable_command)]
pub fn interrupt_enable_command(usbcmd: u32) -> (value: u32)
    ensures
        value == spec_interrupt_enable_command(usbcmd),
{
    usbcmd | USBCMD_INTERRUPTER_ENABLE
}

/// The command value that sets the controller running.
#[verifier::when_used_as_spec(spec_run_command)]
pub fn run_command(usbcmd: u32) -> (value: u32)
    ensures
        value == spec_run_command(usbcmd),
{
    usbcmd | USBCMD_RUN_STOP
}

/// What the command values do to the bits they are about: halting clears
/// run/stop and the interrupt enable and starts no reset; the reset command
/// sets the reset bit; the run command sets run/stop and starts no reset
/// that was not under way.
pub proof fn lemma_command_values(usbcmd: u32)
    ensures
        spec_halt_command(usbcmd) % 2 == 0,
        (spec_halt_command(usbcmd) / 4) % 2 == 0,
        spec_is_resetting(spec_halt_command(usbcmd)) == spec_is_resetting(usbcmd),
        spec_is_resetting(spec_reset_command(usbcmd)),
        spec_reset_command(usbcmd) % 2 == usbcmd % 2,
        (spec_interrupt_enable_command(usbcmd) / 4) % 2 == 1,
        spec_run_command(usbcmd) % 2 == 1,
        spec_is_resetting(spec_run_command(usbcmd)) == spec_is_resetting(usbcmd),
{
    assert((usbcmd & !0x40du32) % 2 == 0 && ((usbcmd & !0x40du32) / 4) % 2 == 0 && ((usbcmd
        & !0x40du32) / 2) % 2 == (usbcmd / 2) % 2) by (bit_vector);
    assert(((usbcmd | 0x2u32) / 2) % 2 == 1 && (usbcmd | 0x2u32) % 2 == usbcmd % 2)
        by (bit_vector);
    assert(((usbcmd | 0x4u32) / 4) % 2 == 1) by (bit_vector);
    assert((usbcmd | 0x1u32) % 2 == 1 && ((usbcmd | 0x1u32) / 2) % 2 == (usbcmd / 2) % 2)
        by (bit_vector);
}

} // verus!
