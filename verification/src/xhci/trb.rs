//! Transfer request blocks: the 16-byte records that the host controller and
//! its driver exchange through rings.

use vstd::arithmetic::div_mod::lemma_fundamental_div_mod_converse;
use vstd::prelude::*;

verus! {

/// Size of one block in bytes.
pub const TRB_SIZE: u64 = 16;

/// Type code of a block that moves data to or from a buffer.
pub const TRB_NORMAL: u8 = 1;

/// Type code of the block that carries a setup packet.
pub const TRB_SETUP_STAGE: u8 = 2;

/// Type code of the block that carries the data of a control transfer.
pub const TRB_DATA_STAGE: u8 = 3;

/// Type code of the block that ends a control transfer.
pub const TRB_STATUS_STAGE: u8 = 4;

/// A control transfer without a data stage.
pub const TRANSFER_NO_DATA: u8 = 0;

/// A control transfer whose data goes to the device.
pub const TRANSFER_OUT_DATA: u8 = 2;

/// A control transfer whose data comes from the device.
pub const TRANSFER_IN_DATA: u8 = 3;

/// Type code of a link block, which closes a ring.
pub const TRB_LINK: u8 = 6;

/// Type code of the command that asks for a device slot.
pub const TRB_ENABLE_SLOT_COMMAND: u8 = 9;

/// Type code of the command that gives a device its address.
pub const TRB_ADDRESS_DEVICE_COMMAND: u8 = 11;

/// Type code of the command that sets up a device's endpoints.
pub const TRB_CONFIGURE_ENDPOINT_COMMAND: u8 = 12;

/// Type code of the event that reports a finished transfer.
pub const TRB_TRANSFER_EVENT: u8 = 32;

/// Type code of the event that reports a finished command.
pub const TRB_COMMAND_COMPLETION_EVENT: u8 = 33;

/// Type code of the event that reports a change at a root hub port.
pub const TRB_PORT_STATUS_CHANGE_EVENT: u8 = 34;

/// Completion code of a command or transfer that succeeded.
pub const COMPLETION_SUCCESS: u8 = 1;

/// Completion code of a transfer that moved less data than was asked for.
pub const COMPLETION_SHORT_PACKET: u8 = 13;

/// One block: a 64-bit parameter in two halves, a status dword and a
/// control dword. The control dword holds the cycle bit in bit 0, the type
/// in bits 10 to 15 and, for commands and events, the slot in bits 24 to 31.
#[derive(Clone, Copy, Debug, PartialEq, Eq, Structural)]
pub struct Trb {
    pub parameter_low: u32,
    pub parameter_high: u32,
    pub status: u32,
    pub control: u32,
}

/// What an event block reports.
#[derive(Clone, Copy, Debug, PartialEq, Eq, Structural)]
pub enum Event {
    /// A transfer on `endpoint` of the device in `slot` ended with `code`.
    Transfer { slot: u8, endpoint: u8, code: u8 },
    /// The command at address `command` ended with `code`; `slot` is the
    /// slot it concerns.
    CommandCompletion { slot: u8, code: u8, command: u64 },
    /// The status of root hub port `port` changed.
    PortStatusChange { port: u8 },
    /// A block of a type that is no event this driver knows.
    Unknown { trb_type: u8 },
}

impl Trb {
    /// Cycle bit: bit 0 of the control dword.
    pub open spec fn spec_cycle_bit(self) -> bool {
        self.control % 2 == 1
    }

    /// Type: bits 10 to 15 of the control dword.
    pub open spec fn spec_trb_type(self) -> u8 {
        ((self.control / 0x400) % 0x40) as u8
    }

    /// Slot: bits 24 to 31 of the control dword.
    pub open spec fn spec_slot_id(self) -> u8 {
        (self.control / 0x100_0000) as u8
    }

    /// Endpoint of a transfer event: bits 16 to 20 of the control dword.
    pub open spec fn spec_endpoint_id(self) -> u8 {
        ((self.control / 0x1_0000) % 0x20) as u8
    }

    /// The port that a port status change event names: bits 24 to 31 of the
    /// parameter.
    pub open spec fn spec_port_id(self) -> u8 {
        (self.parameter_low / 0x100_0000) as u8
    }

    /// Completion code of an event: bits 24 to 31 of the status dword.
    pub open spec fn spec_completion_code(self) -> u8 {
        (self.status / 0x100_0000) as u8
    }

    /// The parameter as one address.
    pub open spec fn spec_pointer(self) -> u64 {
        (self.parameter_low + self.parameter_high * 0x1_0000_0000) as u64
    }

    /// The event that the block reports.
    pub open spec fn spec_event(self) -> Event {
        if self.spec_trb_type() == TRB_TRANSFER_EVENT {
            Event::Transfer {
                slot: self.spec_slot_id(),
                endpoint: self.spec_endpoint_id(),
                code: self.spec_completion_code(),
            }
        } else if self.spec_trb_type() == TRB_COMMAND_COMPLETION_EVENT {
            Event::CommandCompletion {
                slot: self.spec_slot_id(),
                code: self.spec_completion_code(),
                command: self.spec_pointer(),
            }
        } else if self.spec_trb_type() == TRB_PORT_STATUS_CHANGE_EVENT {
            Event::PortStatusChange { port: self.spec_port_id() }
        } else {
            Event::Unknown { trb_type: self.spec_trb_type() }
        }
    }

    /// A command block of type `trb_type` for `slot` with `parameter`, its
    /// cycle bit clear.
    pub open spec fn spec_command(trb_type: u8, slot: u8, parameter: u64) -> Trb {
        Trb {
            parameter_low: (parameter % 0x1_0000_0000) as u32,
            parameter_high: (parameter / 0x1_0000_0000) as u32,
            status: 0,
            control: (trb_type * 0x400 + slot * 0x100_0000) as u32,
        }
    }

    /// The block with its cycle bit set to `cycle` and all else kept.
    pub open spec fn spec_with_cycle(self, cycle: bool) -> Trb {
        Trb {
            parameter_low: self.parameter_low,
            parameter_high: self.parameter_high,
            status: self.status,
            control: (self.control - self.control % 2 + if cycle {
                1int
            } else {
                0int
            }) as u32,
        }
    }

    /// The link block that leads back to the ring's first block at `base`;
    /// with `toggle`, bit 1 tells the consumer to flip its cycle state.
    pub open spec fn spec_link(base: u64, toggle: bool) -> Trb {
        Trb {
            parameter_low: (base % 0x1_0000_0000) as u32,
            parameter_high: (base / 0x1_0000_0000) as u32,
            status: 0,
            control: (TRB_LINK * 0x400 + if toggle {
                2int
            } else {
                0int
            }) as u32,
        }
    }

    /// The cycle bit.
    #[verifier::when_used_as_spec(spec_cycle_bit)]
    pub fn cycle_bit(self) -> (cycle: bool)
        ensures
            cycle == self.spec_cycle_bit(),
    {
        self.control % 2 == 1
    }

    /// The type of the block.
    #[verifier::when_used_as_spec(spec_trb_type)]
    pub fn trb_type(self) -> (trb_type: u8)
        ensures
            trb_type == self.spec_trb_type(),
            trb_type < 0x40,
    {
        ((self.control / 0x400) % 0x40) as u8
    }

    /// The slot that the block concerns.
    #[verifier::when_used_as_spec(spec_slot_id)]
    pub fn slot_id(self) -> (slot: u8)
        ensures
            slot == self.spec_slot_id(),
    {
        (self.control / 0x100_0000) as u8
    }

    /// The endpoint of a transfer event.
    #[verifier::when_used_as_spec(spec_endpoint_id)]
    pub fn endpoint_id(self) -> (endpoint: u8)
        ensures
            endpoint == self.spec_endpoint_id(),
    {
        ((self.control / 0x1_0000) % 0x20) as u8
    }

    /// The port that a port status change event names.
    #[verifier::when_used_as_spec(spec_port_id)]
    pub fn port_id(self) -> (port: u8)
        ensures
            port == self.spec_port_id(),
    {
        (self.parameter_low / 0x100_0000) as u8
    }

    /// The completion code of an event.
    #[verifier::when_used_as_spec(spec_completion_code)]
    pub fn completion_code(self) -> (code: u8)
        ensures
            code == self.spec_completion_code(),
    {
        (self.status / 0x100_0000) as u8
    }

    /// The parameter as one address.
    #[verifier::when_used_as_spec(spec_pointer)]
    pub fn pointer(self) -> (address: u64)
        ensures
            address == self.spec_pointer(),
    {
        self.parameter_low as u64 + (self.parameter_high as u64) * 0x1_0000_0000
    }

    /// Decodes an event block.
    #[verifier::when_used_as_spec(spec_event)]
    pub fn event(self) -> (event: Event)
        ensures
            event == self.spec_event(),
    {
        let trb_type = self.trb_type();
        if trb_type == TRB_TRANSFER_EVENT {
            Event::Transfer {
                slot: self.slot_id(),
                endpoint: self.endpoint_id(),
                code: self.completion_code(),
            }
        } else if trb_type == TRB_COMMAND_COMPLETION_EVENT {
            Event::CommandCompletion {
                slot: self.slot_id(),
                code: self.completion_code(),
                command: self.pointer(),
            }
        } else if trb_type == TRB_PORT_STATUS_CHANGE_EVENT {
            Event::PortStatusChange { port: self.port_id() }
        } else {
            Event::Unknown { trb_type }
        }
    }

    /// Builds a command block; see `spec_command`. The fields read back
    /// from it are the ones it was built from.
    pub fn command(trb_type: u8, slot: u8, parameter: u64) -> (trb: Trb)
        requires
            trb_type < 0x40,
        ensures
            trb == Self::spec_command(trb_type, slot, parameter),
            trb.spec_trb_type() == trb_type,
            trb.spec_slot_id() == slot,
            trb.spec_pointer() == parameter,
            !trb.spec_cycle_bit(),
    {
        let control: u32 = (trb_type as u32) * 0x400 + (slot as u32) * 0x100_0000;
        proof {
            lemma_fundamental_div_mod_converse(
                control as int,
                0x100_0000,
                slot as int,
                trb_type * 0x400,
            );
            lemma_fundamental_div_mod_converse(
                control as int,
                0x400,
                trb_type + slot * 0x4000,
                0,
            );
            lemma_fundamental_div_mod_converse(
                trb_type + slot * 0x4000,
                0x40,
                slot * 0x100,
                trb_type as int,
            );
            lemma_fundamental_div_mod_converse(
                control as int,
                2,
                trb_type * 0x200 + slot * 0x80_0000,
                0,
            );
        }
        Trb {
            parameter_low: (parameter % 0x1_0000_0000) as u32,
            parameter_high: (parameter / 0x1_0000_0000) as u32,
            status: 0,
            control,
        }
    }

    /// The command that asks the controller for a free device slot.
    pub fn enable_slot_command() -> (trb: Trb)
        ensures
            trb == Self::spec_command(TRB_ENABLE_SLOT_COMMAND, 0, 0),
            trb.spec_trb_type() == TRB_ENABLE_SLOT_COMMAND,
    {
        Self::command(TRB_ENABLE_SLOT_COMMAND, 0, 0)
    }

    /// The command that gives the device in `slot` its address, from the
    /// input context at `input_context`.
    pub fn address_device_command(input_context: u64, slot: u8) -> (trb: Trb)
        ensures
            trb == Self::spec_command(TRB_ADDRESS_DEVICE_COMMAND, slot, input_context),
            trb.spec_trb_type() == TRB_ADDRESS_DEVICE_COMMAND,
            trb.spec_slot_id() == slot,
            trb.spec_pointer() == input_context,
    {
        Self::command(TRB_ADDRESS_DEVICE_COMMAND, slot, input_context)
    }

    /// The command that sets up the endpoints of the device in `slot`, from
    /// the input context at `input_context`.
    pub fn configure_endpoint_command(input_context: u64, slot: u8) -> (trb: Trb)
        ensures
            trb == Self::spec_command(TRB_CONFIGURE_ENDPOINT_COMMAND, slot, input_context),
            trb.spec_trb_type() == TRB_CONFIGURE_ENDPOINT_COMMAND,
            trb.spec_slot_id() == slot,
            trb.spec_pointer() == input_context,
    {
        Self::command(TRB_CONFIGURE_ENDPOINT_COMMAND, slot, input_context)
    }

    /// Builds a link block; see `spec_link`.
    pub fn link(base: u64, toggle: bool) -> (trb: Trb)
        ensures
            trb == Self::spec_link(base, toggle),
            trb.spec_trb_type() == TRB_LINK,
            trb.spec_pointer() == base,
            !trb.spec_cycle_bit(),
    {
        let flag: u32 = if toggle {
            2
        } else {
            0
        };
        let control: u32 = (TRB_LINK as u32) * 0x400 + flag;
        Trb {
            parameter_low: (base % 0x1_0000_0000) as u32,
            parameter_high: (base / 0x1_0000_0000) as u32,
            status: 0,
            control,
        }
    }

    /// Sets the cycle bit; see `spec_with_cycle`. Type, slot and parameter
    /// are kept.
    pub fn with_cycle(&self, cycle: bool) -> (trb: Trb)
        ensures
            trb == self.spec_with_cycle(cycle),
            trb.spec_cycle_bit() == cycle,
            trb.spec_trb_type() == self.spec_trb_type(),
            trb.spec_slot_id() == self.spec_slot_id(),
            trb.spec_pointer() == self.spec_pointer(),
    {
        let bit: u32 = if cycle {
            1
        } else {
            0
        };
        let control: u32 = self.control - self.control % 2 + bit;
        proof {
            let half = self.control as int / 2;
            lemma_fundamental_div_mod_converse(control as int, 2, half, bit as int);
            lemma_fundamental_div_mod_converse(
                control as int,
                0x400,
                self.control as int / 0x400,
                self.control % 0x400 - self.control % 2 + bit,
            );
            lemma_fundamental_div_mod_converse(
                control as int,
                0x100_0000,
                self.control as int / 0x100_0000,
                self.control % 0x100_0000 - self.control % 2 + bit,
            );
        }
        Trb {
            parameter_low: self.parameter_low,
            parameter_high: self.parameter_high,
            status: self.status,
            control,
        }
    }
}

impl Trb {
    /// The block with `parameter` in its two halves, and the given status
    /// and control dwords.
    pub open spec fn spec_block(parameter: u64, status: u32, control: u32) -> Trb {
        Trb {
            parameter_low: (parameter % 0x1_0000_0000) as u32,
            parameter_high: (parameter / 0x1_0000_0000) as u32,
            status,
            control,
        }
    }

    /// The setup stage of a control transfer: the setup packet as the
    /// parameter, its length of 8 as the status, and in the control dword
    /// the type, bit 6 for data held in the block itself, and the kind of
    /// transfer in bits 16 and 17.
    pub open spec fn spec_setup_stage(setup: u64, transfer_type: u8) -> Trb {
        Self::spec_block(
            setup,
            8,
            (TRB_SETUP_STAGE * 0x400 + 0x40 + (transfer_type % 4) * 0x1_0000) as u32,
        )
    }

    /// The data stage of a control transfer: the buffer's address, the
    /// length, and in the control dword the type and, in bit 16, whether
    /// the data comes from the device.
    pub open spec fn spec_data_stage(buffer: u64, length: u16, data_in: bool) -> Trb {
        Self::spec_block(
            buffer,
            length as u32,
            (TRB_DATA_STAGE * 0x400 + if data_in {
                0x1_0000int
            } else {
                0int
            }) as u32,
        )
    }

    /// The status stage of a control transfer: in the control dword the
    /// type, bit 5 to have an event raised on completion and, in bit 16,
    /// the direction of the handshake.
    pub open spec fn spec_status_stage(status_in: bool) -> Trb {
        Self::spec_block(
            0,
            0,
            (TRB_STATUS_STAGE * 0x400 + 0x20 + if status_in {
                0x1_0000int
            } else {
                0int
            }) as u32,
        )
    }

    /// A transfer of `length` bytes into the buffer at `buffer`: in the
    /// control dword the type, bit 5 to have an event raised on completion
    /// and bit 2 to have one raised on a short packet.
    pub open spec fn spec_normal(buffer: u64, length: u16) -> Trb {
        Self::spec_block(buffer, length as u32, (TRB_NORMAL * 0x400 + 0x20 + 0x4) as u32)
    }

    fn block(parameter: u64, status: u32, control: u32) -> (trb: Trb)
        ensures
            trb == Self::spec_block(parameter, status, control),
    {
        Trb {
            parameter_low: (parameter % 0x1_0000_0000) as u32,
            parameter_high: (parameter / 0x1_0000_0000) as u32,
            status,
            control,
        }
    }

    /// The setup stage of a control transfer; see `spec_setup_stage`.
    pub fn setup_stage(setup: u64, transfer_type: u8) -> (trb: Trb)
        ensures
            trb == Self::spec_setup_stage(setup, transfer_type),
    {
        Self::block(
            setup,
            8,
            (TRB_SETUP_STAGE as u32) * 0x400 + 0x40 + ((transfer_type % 4) as u32) * 0x1_0000,
        )
    }

    /// The data stage of a control transfer; see `spec_data_stage`.
    pub fn data_stage(buffer: u64, length: u16, data_in: bool) -> (trb: Trb)
        ensures
            trb == Self::spec_data_stage(buffer, length, data_in),
    {
        let direction: u32 = if data_in {
            0x1_0000
        } else {
            0
        };
        Self::block(buffer, length as u32, (TRB_DATA_STAGE as u32) * 0x400 + direction)
    }

    /// The status stage of a control transfer; see `spec_status_stage`.
    pub fn status_stage(status_in: bool) -> (trb: Trb)
        ensures
            trb == Self::spec_status_stage(status_in),
    {
        let direction: u32 = if status_in {
            0x1_0000
        } else {
            0
        };
        Self::block(0, 0, (TRB_STATUS_STAGE as u32) * 0x400 + 0x20 + direction)
    }

    /// A transfer into a buffer; see `spec_normal`.
    pub fn normal(buffer: u64, length: u16) -> (trb: Trb)
        ensures
            trb == Self::spec_normal(buffer, length),
    {
        Self::block(buffer, length as u32, (TRB_NORMAL as u32) * 0x400 + 0x20 + 0x4)
    }
}

} // verus!
