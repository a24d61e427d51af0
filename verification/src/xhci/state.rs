//! The driver's state and how each event changes it, as mathematics.
//!
//! Every operation of the controller is defined here as a function from a
//! state to a `Step`: the state that follows, the actions that the caller
//! is to carry out, and whether the operation succeeded.

use crate::error::Error;
use crate::mouse::spec_report_displacement;
use crate::usb::descriptor::{spec_find_mouse_endpoint, MouseEndpoint};
use crate::usb::setup::{
    SetupData, DESCRIPTOR_CONFIGURATION, DESCRIPTOR_DEVICE, DEVICE_DESCRIPTOR_LENGTH,
};
use crate::xhci::context::{
    spec_add_flags, spec_dci_in, spec_endpoint_context, spec_interval_field, spec_slot_context_0,
    spec_slot_context_1, EndpointContext, CONTEXT_SIZE, DCI_CONTROL, ENDPOINT_TYPE_CONTROL,
    ENDPOINT_TYPE_INTERRUPT_IN,
};
use crate::xhci::port::{
    portsc_connected, portsc_enabled, portsc_reset_changed, portsc_speed,
    spec_clear_reset_change_value, spec_max_packet_size, spec_reset_value, ConfigPhase,
};
use crate::xhci::registers::{
    spec_halt_command, spec_interrupt_enable_command, spec_is_halted, spec_is_not_ready,
    spec_is_resetting, spec_reset_command, spec_run_command, BlockAddresses, MmioWrite, Width,
    IMAN_PENDING_AND_ENABLE,
};
use crate::xhci::ring::{CommandRingState, Cursor};
use crate::xhci::trb::{
    Event, Trb, COMPLETION_SHORT_PACKET, COMPLETION_SUCCESS, TRANSFER_IN_DATA, TRANSFER_NO_DATA,
    TRANSFER_OUT_DATA, TRB_ADDRESS_DEVICE_COMMAND, TRB_CONFIGURE_ENDPOINT_COMMAND,
    TRB_ENABLE_SLOT_COMMAND, TRB_SIZE,
};
use vstd::prelude::*;

verus! {

/// Number of port numbers, 0 included; port 0 does not exist.
pub const PORT_NUMBERS: usize = 256;

/// Number of slot numbers, 0 included; slot 0 does not exist.
pub const SLOT_NUMBERS: usize = 256;

/// Number of device slots that the driver lets the controller use.
pub const DEVICE_SLOTS: u8 = 8;

/// Number of blocks in the command ring.
pub const COMMAND_RING_SIZE: usize = 32;

/// Number of blocks in the event ring.
pub const EVENT_RING_SIZE: usize = 32;

/// Number of blocks in a transfer ring.
pub const TRANSFER_RING_SIZE: u8 = 32;

/// Distance between the input contexts of two slots.
pub const INPUT_CONTEXT_SIZE: u64 = 0x440;

/// Distance between the device contexts of two slots, and the size of one.
pub const DEVICE_CONTEXT_SIZE: u64 = 0x400;

/// Size of the device context base address array.
pub const DEVICE_CONTEXT_ARRAY_SIZE: u64 = 0x800;

/// Distance between the transfer rings of two slots. Each slot has two
/// rings, the control endpoint's first.
pub const SLOT_RINGS_SIZE: u64 = 0x400;

/// Size of the data buffer of a slot, and distance between two of them.
pub const BUFFER_SIZE: u16 = 0x200;

/// Room that each region of the memory layout is given.
pub const REGION_SIZE: u64 = 0x10_0000;

/// Number of control transfers that read a device's descriptors and select
/// its configuration.
pub const INITIALIZATION_TRANSFERS: u8 = 3;

/// The addresses of the memory that the driver shares with the controller.
#[derive(Clone, Copy, Debug, PartialEq, Eq, Structural)]
pub struct DmaLayout {
    /// The device context base address array.
    pub device_contexts: u64,
    /// The command ring's blocks.
    pub command_ring: u64,
    /// The event ring's blocks.
    pub event_ring: u64,
    /// The event ring segment table.
    pub event_ring_table: u64,
    /// The input contexts, one per slot number.
    pub input_contexts: u64,
    /// The transfer rings, two per slot number.
    pub transfer_rings: u64,
    /// The data buffers, one per slot number.
    pub buffers: u64,
}

impl DmaLayout {
    /// A region may start at `address`: it is aligned to 64 bytes and
    /// leaves room for `REGION_SIZE` bytes.
    pub open spec fn region(address: u64) -> bool {
        address % 64 == 0 && address + REGION_SIZE <= u64::MAX
    }

    /// Every region may start where the layout puts it.
    pub open spec fn valid(self) -> bool {
        &&& Self::region(self.device_contexts)
        &&& Self::region(self.command_ring)
        &&& Self::region(self.event_ring)
        &&& Self::region(self.event_ring_table)
        &&& Self::region(self.input_contexts)
        &&& Self::region(self.transfer_rings)
        &&& Self::region(self.buffers)
    }

    /// Address of the input context of `slot`.
    pub open spec fn input_context(self, slot: u8) -> u64 {
        (self.input_contexts + slot * INPUT_CONTEXT_SIZE) as u64
    }

    /// Address of the device context of `slot`, which follows the device
    /// context base address array.
    pub open spec fn device_context(self, slot: u8) -> u64 {
        (self.device_contexts + DEVICE_CONTEXT_ARRAY_SIZE + slot * DEVICE_CONTEXT_SIZE) as u64
    }

    /// Address of the entry of `slot` in the device context base address
    /// array.
    pub open spec fn device_context_entry(self, slot: u8) -> u64 {
        (self.device_contexts + slot * 8) as u64
    }

    /// Address of the transfer ring of the control endpoint of `slot`.
    pub open spec fn control_ring(self, slot: u8) -> u64 {
        (self.transfer_rings + slot * SLOT_RINGS_SIZE) as u64
    }

    /// Address of the transfer ring of the interrupt endpoint of `slot`.
    pub open spec fn interrupt_ring(self, slot: u8) -> u64 {
        (self.transfer_rings + slot * SLOT_RINGS_SIZE + SLOT_RINGS_SIZE / 2) as u64
    }

    /// Address of the data buffer of `slot`.
    pub open spec fn buffer(self, slot: u8) -> u64 {
        (self.buffers + slot * BUFFER_SIZE) as u64
    }
}

/// Where the driver writes next in a transfer ring, and its cycle state.
/// The last position of a ring holds the link block, so `index` never
/// names it.
#[derive(Clone, Copy, Debug, PartialEq, Eq, Structural)]
pub struct RingPosition {
    pub index: u8,
    pub cycle: bool,
}

impl RingPosition {
    /// The position lies before the link block.
    pub open spec fn wf(self) -> bool {
        self.index + 1 < TRANSFER_RING_SIZE
    }

    /// The position of a fresh ring.
    pub open spec fn start() -> RingPosition {
        RingPosition { index: 0, cycle: true }
    }
}

/// A block is put on the transfer ring at `base`: the actions that store
/// it, marked with the cycle state, and, where it fills the last free
/// position, the link block after it; and the position that follows.
pub open spec fn ring_push(base: u64, position: RingPosition, trb: Trb) -> (
    Seq<Action>,
    RingPosition,
) {
    let own = Action::StoreTrb {
        address: (base + position.index * TRB_SIZE) as u64,
        trb: trb.spec_with_cycle(position.cycle),
    };
    if position.index + 2 == TRANSFER_RING_SIZE {
        (
            seq![
                own,
                Action::StoreTrb {
                    address: (base + (TRANSFER_RING_SIZE - 1) * TRB_SIZE) as u64,
                    trb: Trb::spec_link(base, true).spec_with_cycle(position.cycle),
                },
            ],
            RingPosition { index: 0, cycle: !position.cycle },
        )
    } else {
        (seq![own], RingPosition { index: (position.index + 1) as u8, cycle: position.cycle })
    }
}

/// The blocks of `trbs` are put on the ring one after the other.
pub open spec fn ring_push_all(base: u64, position: RingPosition, trbs: Seq<Trb>) -> (
    Seq<Action>,
    RingPosition,
)
    decreases trbs.len(),
{
    if trbs.len() == 0 {
        (Seq::empty(), position)
    } else {
        let before = ring_push_all(base, position, trbs.drop_last());
        let last = ring_push(base, before.1, trbs.last());
        (before.0 + last.0, last.1)
    }
}

/// Pushing blocks keeps a ring position within the ring.
pub proof fn lemma_ring_push_all_wf(base: u64, position: RingPosition, trbs: Seq<Trb>)
    requires
        position.wf(),
    ensures
        ring_push_all(base, position, trbs).1.wf(),
        trbs.len() <= ring_push_all(base, position, trbs).0.len() <= 2 * trbs.len(),
    decreases trbs.len(),
{
    if trbs.len() > 0 {
        lemma_ring_push_all_wf(base, position, trbs.drop_last());
    }
}

/// The blocks of a control transfer that carries `setup` and moves its
/// data through the buffer at `buffer`: the setup stage, the data stage
/// where the request has data, and the status stage, whose handshake runs
/// against the data.
pub open spec fn control_transfer_blocks(setup: SetupData, buffer: u64) -> Seq<Trb> {
    if setup.length == 0 {
        seq![
            Trb::spec_setup_stage(setup.spec_parameter(), TRANSFER_NO_DATA),
            Trb::spec_status_stage(true),
        ]
    } else if setup.spec_device_to_host() {
        seq![
            Trb::spec_setup_stage(setup.spec_parameter(), TRANSFER_IN_DATA),
            Trb::spec_data_stage(buffer, setup.length, true),
            Trb::spec_status_stage(false),
        ]
    } else {
        seq![
            Trb::spec_setup_stage(setup.spec_parameter(), TRANSFER_OUT_DATA),
            Trb::spec_data_stage(buffer, setup.length, false),
            Trb::spec_status_stage(true),
        ]
    }
}

/// Number of bytes to ask of the mouse for one report: the largest packet
/// of its endpoint, but no more than the buffer holds.
pub open spec fn spec_report_length(endpoint: MouseEndpoint) -> u16 {
    if endpoint.max_packet_size < BUFFER_SIZE {
        endpoint.max_packet_size
    } else {
        BUFFER_SIZE
    }
}

/// The stages of a controller's life. A controller only ever moves to a
/// later stage.
#[derive(Clone, Copy, Debug, PartialEq, Eq, Structural)]
pub enum Lifecycle {
    /// Constructed; the hardware has not been touched.
    Created,
    /// Told to stop; waiting until it has.
    Halting,
    /// Told to reset; waiting until it is ready again.
    Resetting,
    /// Reset and programmed with its rings; not yet running.
    Initialized,
    /// Running: ports can be configured and events arrive.
    Running,
}

impl Lifecycle {
    /// The stage's place in the order of stages.
    pub open spec fn rank(self) -> nat {
        match self {
            Lifecycle::Created => 0,
            Lifecycle::Halting => 1,
            Lifecycle::Resetting => 2,
            Lifecycle::Initialized => 3,
            Lifecycle::Running => 4,
        }
    }
}

/// Something the caller is to do for the driver.
#[derive(Clone, Copy, Debug, PartialEq, Eq, Structural)]
pub enum Action {
    /// Write a register.
    Write(MmioWrite),
    /// Store a block in memory at `address`.
    StoreTrb { address: u64, trb: Trb },
    /// Store a dword in memory at `address`.
    StoreDword { address: u64, dword: u32 },
    /// Store a quadword in memory at `address`.
    StoreQword { address: u64, quadword: u64 },
    /// Fill `length` bytes of memory from `address` on with zeros.
    ClearMemory { address: u64, length: u32 },
    /// Tell the mouse observer of a displacement.
    MouseMoved { displacement_x: i8, displacement_y: i8 },
}

/// The status register value of `port` in a snapshot that holds the value
/// of port 1 first; 0 for a port that the snapshot does not hold.
pub open spec fn portsc_of(ports: Seq<u32>, port: u8) -> u32 {
    if 1 <= port <= ports.len() {
        ports[port - 1]
    } else {
        0
    }
}

/// The entry of a slot whose device's endpoint is not known.
pub open spec fn no_endpoint() -> MouseEndpoint {
    MouseEndpoint { configuration: 0, interface: 0, endpoint: 0, max_packet_size: 0, interval: 0 }
}

/// The state of a controller that has just been constructed.
pub open spec fn initial_state(
    blocks: BlockAddresses,
    max_ports: u8,
    max_slots: u8,
    layout: DmaLayout,
) -> ControllerState {
    ControllerState {
        lifecycle: Lifecycle::Created,
        blocks,
        layout,
        max_ports,
        max_slots,
        phases: Seq::new(PORT_NUMBERS as nat, |i: int| ConfigPhase::NotConnected),
        addressing_port: 0,
        slot_ports: Seq::new(SLOT_NUMBERS as nat, |i: int| 0u8),
        slot_stages: Seq::new(SLOT_NUMBERS as nat, |i: int| 0u8),
        control_rings: Seq::new(SLOT_NUMBERS as nat, |i: int| RingPosition::start()),
        interrupt_rings: Seq::new(SLOT_NUMBERS as nat, |i: int| RingPosition::start()),
        endpoints: Seq::new(SLOT_NUMBERS as nat, |i: int| no_endpoint()),
        commands: CommandRingState {
            base: layout.command_ring,
            types: Seq::new(COMMAND_RING_SIZE as nat, |i: int| 0u8),
            cursor: Cursor { size: COMMAND_RING_SIZE as nat, index: 0, cycle: true },
        },
        events: Cursor { size: EVENT_RING_SIZE as nat, index: 0, cycle: true },
    }
}

/// `port` is the lowest port that waits for the default address.
pub open spec fn is_first_waiting(phases: Seq<ConfigPhase>, port: int) -> bool {
    &&& 0 <= port < phases.len()
    &&& phases[port] == ConfigPhase::WaitingAddressed
    &&& forall|q: int| 0 <= q < port ==> #[trigger] phases[q] != ConfigPhase::WaitingAddressed
}

/// There is at most one lowest waiting port.
pub proof fn lemma_first_waiting_unique(phases: Seq<ConfigPhase>, a: int, b: int)
    requires
        is_first_waiting(phases, a),
        is_first_waiting(phases, b),
    ensures
        a == b,
{
    if a < b {
        assert(phases[a] != ConfigPhase::WaitingAddressed);
    } else if b < a {
        assert(phases[b] != ConfigPhase::WaitingAddressed);
    }
}

/// The driver's state.
pub struct ControllerState {
    pub lifecycle: Lifecycle,
    pub blocks: BlockAddresses,
    pub layout: DmaLayout,
    /// Number of root hub ports.
    pub max_ports: u8,
    /// Number of device slots in use.
    pub max_slots: u8,
    /// The phase of each port, by port number.
    pub phases: Seq<ConfigPhase>,
    /// The port that owns the default address, or 0.
    pub addressing_port: u8,
    /// The port of the device in each slot, by slot number; 0 for a slot
    /// without a device.
    pub slot_ports: Seq<u8>,
    /// Number of initialization transfers that ended, by slot number.
    pub slot_stages: Seq<u8>,
    /// Where the control endpoint's ring stands, by slot number.
    pub control_rings: Seq<RingPosition>,
    /// Where the interrupt endpoint's ring stands, by slot number.
    pub interrupt_rings: Seq<RingPosition>,
    /// The mouse endpoint of the device, by slot number.
    pub endpoints: Seq<MouseEndpoint>,
    pub commands: CommandRingState,
    pub events: Cursor,
}

/// The outcome of an operation.
pub struct Step {
    pub state: ControllerState,
    pub actions: Seq<Action>,
    pub status: Result<(), Error>,
}

impl ControllerState {
    /// What holds of every state that the driver reaches: the tables have
    /// their lengths, the rings and the addresses of registers and memory
    /// lie within their bounds, and the default address has one owner at
    /// most.
    pub open spec fn wf(self) -> bool {
        &&& self.layout.valid()
        &&& 1 <= self.max_ports
        &&& self.max_slots <= DEVICE_SLOTS
        &&& self.phases.len() == PORT_NUMBERS
        &&& self.slot_ports.len() == SLOT_NUMBERS
        &&& self.slot_stages.len() == SLOT_NUMBERS
        &&& self.control_rings.len() == SLOT_NUMBERS
        &&& self.interrupt_rings.len() == SLOT_NUMBERS
        &&& self.endpoints.len() == SLOT_NUMBERS
        &&& forall|s: int| 0 <= s < SLOT_NUMBERS ==> (#[trigger] self.control_rings[s]).wf()
        &&& forall|s: int| 0 <= s < SLOT_NUMBERS ==> (#[trigger] self.interrupt_rings[s]).wf()
        &&& self.commands.wf()
        &&& self.commands.base == self.layout.command_ring
        &&& self.commands.types.len() == COMMAND_RING_SIZE
        &&& self.events.wf()
        &&& self.events.size == EVENT_RING_SIZE
        &&& self.blocks.operational + 0x2000 <= u64::MAX
        &&& self.blocks.runtime + 0x100 <= u64::MAX
        &&& self.blocks.doorbell + 0x400 <= u64::MAX
        &&& self.phases[0] == ConfigPhase::NotConnected
        &&& self.default_address_is_exclusive()
    }

    /// At most one port uses the default address, and it is the port that
    /// `addressing_port` names.
    pub open spec fn default_address_is_exclusive(self) -> bool {
        &&& forall|p: int|
            0 <= p < self.phases.len() && (#[trigger] self.phases[p]).uses_default_address() ==> p
                == self.addressing_port
        &&& self.addressing_port != 0 ==> self.phases[self.addressing_port as int].uses_default_address()
    }

    /// Address of the status register of `port`.
    pub open spec fn portsc_address(self, port: u8) -> u64 {
        (self.blocks.operational + 0x400 + 0x10 * (port - 1)) as u64
    }

    /// The operation changes nothing and ends with `status`.
    pub open spec fn stay(self, status: Result<(), Error>) -> Step {
        Step { state: self, actions: Seq::empty(), status }
    }

    /// The state with `port` in `phase`.
    pub open spec fn with_phase(self, port: u8, phase: ConfigPhase) -> ControllerState {
        ControllerState { phases: self.phases.update(port as int, phase), ..self }
    }

    /// The actions that issue `trb` as a command: the stores into the ring
    /// and the ring of doorbell 0.
    pub open spec fn command_actions(self, trb: Trb) -> Seq<Action> {
        let stores = self.commands.stores(trb);
        Seq::new(
            stores.len(),
            |i: int|
                Action::StoreTrb {
                    address: self.commands.address_of(stores[i].index as int) as u64,
                    trb: stores[i].trb,
                },
        ).push(
            Action::Write(
                MmioWrite { address: self.blocks.doorbell, value: 0, width: Width::Dword },
            ),
        )
    }

    /// A device was seen at `port`, whose status register reads `portsc`.
    /// Nothing happens unless a device is attached. While another port
    /// owns the default address the port waits; else it takes the default
    /// address and is reset.
    pub open spec fn reset_port(self, port: u8, portsc: u32) -> Step {
        if !portsc_connected(portsc) || port == 0 {
            self.stay(Ok(()))
        } else if self.addressing_port != 0 {
            Step {
                state: self.with_phase(port, ConfigPhase::WaitingAddressed),
                actions: Seq::empty(),
                status: Ok(()),
            }
        } else if self.phases[port as int] != ConfigPhase::NotConnected && self.phases[port as int]
            != ConfigPhase::WaitingAddressed {
            self.stay(Err(Error::InvalidPhase))
        } else {
            Step {
                state: ControllerState {
                    addressing_port: port,
                    ..self.with_phase(port, ConfigPhase::ResettingPort)
                },
                actions: seq![
                    Action::Write(
                        MmioWrite {
                            address: self.portsc_address(port),
                            value: spec_reset_value(portsc) as u64,
                            width: Width::Dword,
                        },
                    ),
                ],
                status: Ok(()),
            }
        }
    }

    /// The reset of `port` may have ended. Once the port is enabled and
    /// reports the end of the reset, the report is acknowledged and a
    /// device slot is asked for.
    pub open spec fn enable_slot(self, port: u8, portsc: u32) -> Step {
        if portsc_enabled(portsc) && portsc_reset_changed(portsc) && port != 0 {
            let trb = Trb::spec_command(TRB_ENABLE_SLOT_COMMAND, 0, 0);
            Step {
                state: ControllerState {
                    commands: self.commands.pushed(trb),
                    ..self.with_phase(port, ConfigPhase::EnablingSlot)
                },
                actions: seq![
                    Action::Write(
                        MmioWrite {
                            address: self.portsc_address(port),
                            value: spec_clear_reset_change_value(portsc) as u64,
                            width: Width::Dword,
                        },
                    ),
                ] + self.command_actions(trb),
                status: Ok(()),
            }
        } else {
            self.stay(Ok(()))
        }
    }

    /// A store of one dword into memory.
    pub open spec fn store_dword(address: int, value: u32) -> Action {
        Action::StoreDword { address: address as u64, dword: value }
    }

    /// The actions that fill the input context at `input_context`: the
    /// context is cleared; the flags that add the slot context and the
    /// context of index `dci` are set; the slot context is given the speed,
    /// the index of its last endpoint context and the root hub port; and
    /// the endpoint context of index `dci` is given `endpoint`.
    pub open spec fn input_context_actions(
        input_context: u64,
        dci: u8,
        speed: u8,
        port: u8,
        endpoint: EndpointContext,
    ) -> Seq<Action> {
        let slot_context = input_context + CONTEXT_SIZE;
        let endpoint_context = input_context + CONTEXT_SIZE * (dci + 1);
        seq![
            Action::ClearMemory { address: input_context, length: INPUT_CONTEXT_SIZE as u32 },
            Self::store_dword(input_context + 4, spec_add_flags(dci)),
            Self::store_dword(slot_context, spec_slot_context_0(speed, dci)),
            Self::store_dword(slot_context + 4, spec_slot_context_1(port)),
            Self::store_dword(endpoint_context, endpoint.d0),
            Self::store_dword(endpoint_context + 4, endpoint.d1),
            Self::store_dword(endpoint_context + 8, endpoint.d2),
            Self::store_dword(endpoint_context + 12, endpoint.d3),
            Self::store_dword(endpoint_context + 16, endpoint.d4),
        ]
    }

    /// Address of the doorbell of `slot`.
    pub open spec fn doorbell_address(self, slot: u8) -> u64 {
        (self.blocks.doorbell + 4 * slot) as u64
    }

    /// The ring of the doorbell of `slot` for the endpoint of index `dci`.
    pub open spec fn ring_doorbell(self, slot: u8, dci: u8) -> Action {
        Action::Write(
            MmioWrite { address: self.doorbell_address(slot), value: dci as u64, width: Width::Dword },
        )
    }

    /// A control transfer that carries `setup` is started for the device
    /// in `slot`: its blocks are put on the ring of the control endpoint
    /// and the doorbell is rung.
    pub open spec fn control_transfer(self, slot: u8, setup: SetupData) -> Step {
        let pushed = ring_push_all(
            self.layout.control_ring(slot),
            self.control_rings[slot as int],
            control_transfer_blocks(setup, self.layout.buffer(slot)),
        );
        Step {
            state: ControllerState {
                control_rings: self.control_rings.update(slot as int, pushed.1),
                ..self
            },
            actions: pushed.0.push(self.ring_doorbell(slot, DCI_CONTROL)),
            status: Ok(()),
        }
    }

    /// The mouse in `slot` is asked for a report: a transfer into the
    /// slot's buffer is put on the ring of the interrupt endpoint and the
    /// doorbell is rung.
    pub open spec fn interrupt_transfer(self, slot: u8) -> Step {
        let endpoint = self.endpoints[slot as int];
        let pushed = ring_push(
            self.layout.interrupt_ring(slot),
            self.interrupt_rings[slot as int],
            Trb::spec_normal(self.layout.buffer(slot), spec_report_length(endpoint)),
        );
        Step {
            state: ControllerState {
                interrupt_rings: self.interrupt_rings.update(slot as int, pushed.1),
                ..self
            },
            actions: pushed.0.push(self.ring_doorbell(slot, spec_dci_in(endpoint.endpoint))),
            status: Ok(()),
        }
    }

    /// The controller handed out `slot` for the device at `port`. The
    /// device's context and rings are cleared and entered in the device
    /// context array, its input context is filled for the control endpoint,
    /// and the device is given its address.
    pub open spec fn address_device(self, port: u8, slot: u8, portsc: u32) -> Step {
        if slot == 0 || slot > self.max_slots {
            self.stay(Err(Error::InvalidSlotID))
        } else if self.slot_ports[slot as int] != 0 {
            self.stay(Err(Error::AlreadyAllocated))
        } else {
            let speed = portsc_speed(portsc);
            let trb = Trb::spec_command(
                TRB_ADDRESS_DEVICE_COMMAND,
                slot,
                self.layout.input_context(slot),
            );
            Step {
                state: ControllerState {
                    slot_ports: self.slot_ports.update(slot as int, port),
                    slot_stages: self.slot_stages.update(slot as int, 0),
                    control_rings: self.control_rings.update(slot as int, RingPosition::start()),
                    interrupt_rings: self.interrupt_rings.update(
                        slot as int,
                        RingPosition::start(),
                    ),
                    endpoints: self.endpoints.update(slot as int, no_endpoint()),
                    commands: self.commands.pushed(trb),
                    ..self.with_phase(port, ConfigPhase::AddressingDevice)
                },
                actions: seq![
                    Action::ClearMemory {
                        address: self.layout.device_context(slot),
                        length: DEVICE_CONTEXT_SIZE as u32,
                    },
                    Action::ClearMemory {
                        address: self.layout.control_ring(slot),
                        length: SLOT_RINGS_SIZE as u32,
                    },
                    Action::StoreQword {
                        address: self.layout.device_context_entry(slot),
                        quadword: self.layout.device_context(slot),
                    },
                ] + Self::input_context_actions(
                    self.layout.input_context(slot),
                    DCI_CONTROL,
                    speed,
                    port,
                    spec_endpoint_context(
                        ENDPOINT_TYPE_CONTROL,
                        spec_max_packet_size(speed),
                        0,
                        self.layout.control_ring(slot),
                        8,
                    ),
                ) + self.command_actions(trb),
                status: Ok(()),
            }
        }
    }

    /// The device in `slot` has its address. Its port gives up the default
    /// address, the lowest port that waited for it is reset, and the
    /// device is asked for its device descriptor.
    pub open spec fn device_addressed(self, slot: u8, ports: Seq<u32>) -> Step {
        let port = self.slot_ports[slot as int];
        if port == 0 {
            self.stay(Err(Error::InvalidSlotID))
        } else if port != self.addressing_port {
            self.stay(Err(Error::InvalidPhase))
        } else if self.phases[port as int] != ConfigPhase::AddressingDevice {
            self.stay(Err(Error::InvalidPhase))
        } else {
            let released = ControllerState {
                addressing_port: 0,
                ..self.with_phase(port, ConfigPhase::InitializingDevice)
            };
            let next = if exists|w: int| is_first_waiting(released.phases, w) {
                let w = choose|w: int| is_first_waiting(released.phases, w);
                released.reset_port(w as u8, portsc_of(ports, w as u8))
            } else {
                released.stay(Ok(()))
            };
            let asked = next.state.control_transfer(
                slot,
                SetupData::spec_get_descriptor(DESCRIPTOR_DEVICE, 0, DEVICE_DESCRIPTOR_LENGTH),
            );
            Step { state: asked.state, actions: next.actions + asked.actions, status: Ok(()) }
        }
    }

    /// The endpoints of the device in `slot` are set up: the device is
    /// ready, and its mouse interface is put into the boot protocol.
    pub open spec fn endpoints_configured(self, slot: u8) -> Step {
        let port = self.slot_ports[slot as int];
        if port == 0 {
            self.stay(Err(Error::InvalidSlotID))
        } else if self.phases[port as int] != ConfigPhase::ConfiguringEndpoints {
            self.stay(Err(Error::InvalidPhase))
        } else {
            self.with_phase(port, ConfigPhase::Configured).control_transfer(
                slot,
                SetupData::spec_set_boot_protocol(self.endpoints[slot as int].interface),
            )
        }
    }

    /// A command ended: what follows depends on which command it was.
    pub open spec fn on_command_completion(self, slot: u8, command: u64, ports: Seq<u32>) -> Step {
        let issued = self.commands.issued_type(command);
        if issued == Some(TRB_ENABLE_SLOT_COMMAND) {
            if self.phases[self.addressing_port as int] != ConfigPhase::EnablingSlot {
                self.stay(Err(Error::InvalidPhase))
            } else {
                self.address_device(
                    self.addressing_port,
                    slot,
                    portsc_of(ports, self.addressing_port),
                )
            }
        } else if issued == Some(TRB_ADDRESS_DEVICE_COMMAND) {
            self.device_addressed(slot, ports)
        } else if issued == Some(TRB_CONFIGURE_ENDPOINT_COMMAND) {
            self.endpoints_configured(slot)
        } else {
            self.stay(Err(Error::InvalidPhase))
        }
    }

    /// The status of `port` changed.
    pub open spec fn on_port_status_change(self, port: u8, ports: Seq<u32>) -> Step {
        if port == 0 || port > self.max_ports {
            self.stay(Err(Error::IndexOutOfRange))
        } else if self.phases[port as int] == ConfigPhase::NotConnected {
            self.reset_port(port, portsc_of(ports, port))
        } else if self.phases[port as int] == ConfigPhase::ResettingPort {
            self.enable_slot(port, portsc_of(ports, port))
        } else {
            self.stay(Err(Error::InvalidPhase))
        }
    }

    /// The mouse endpoint of the device in `slot` is known: its input
    /// context is filled for that endpoint, and the command that sets the
    /// endpoint up is issued.
    pub open spec fn configure_endpoints(self, slot: u8, port: u8, portsc: u32) -> Step {
        let endpoint = self.endpoints[slot as int];
        let trb = Trb::spec_command(
            TRB_CONFIGURE_ENDPOINT_COMMAND,
            slot,
            self.layout.input_context(slot),
        );
        Step {
            state: ControllerState {
                slot_stages: self.slot_stages.update(slot as int, INITIALIZATION_TRANSFERS),
                commands: self.commands.pushed(trb),
                ..self.with_phase(port, ConfigPhase::ConfiguringEndpoints)
            },
            actions: Self::input_context_actions(
                self.layout.input_context(slot),
                spec_dci_in(endpoint.endpoint),
                portsc_speed(portsc),
                port,
                spec_endpoint_context(
                    ENDPOINT_TYPE_INTERRUPT_IN,
                    endpoint.max_packet_size,
                    spec_interval_field(endpoint.interval),
                    self.layout.interrupt_ring(slot),
                    spec_report_length(endpoint),
                ),
            ) + self.command_actions(trb),
            status: Ok(()),
        }
    }

    /// A control transfer of the device in `slot`, which is being
    /// initialized, ended; `data` is what the slot's buffer holds. After
    /// the device descriptor the configuration descriptor is asked for. In
    /// that, the mouse endpoint is looked for: a device without one is
    /// unknown and is left as it is; else the configuration is selected.
    /// After that the endpoint is set up.
    pub open spec fn initialization_step(self, slot: u8, port: u8, portsc: u32, data: Seq<u8>) -> Step {
        let done = self.slot_stages[slot as int];
        if done == 0 {
            ControllerState { slot_stages: self.slot_stages.update(slot as int, 1), ..self }.control_transfer(
                slot,
                SetupData::spec_get_descriptor(DESCRIPTOR_CONFIGURATION, 0, BUFFER_SIZE),
            )
        } else if done == 1 {
            match spec_find_mouse_endpoint(data) {
                None => self.stay(Err(Error::UnknownDevice)),
                Some(endpoint) => ControllerState {
                    slot_stages: self.slot_stages.update(slot as int, 2),
                    endpoints: self.endpoints.update(slot as int, endpoint),
                    ..self
                }.control_transfer(slot, SetupData::spec_set_configuration(endpoint.configuration)),
            }
        } else {
            self.configure_endpoints(slot, port, portsc)
        }
    }

    /// A transfer of the configured mouse in `slot` ended; `data` is what
    /// the slot's buffer holds. After the control transfer that selected
    /// the boot protocol, the first report is asked for. After a transfer
    /// on the mouse endpoint, the observer is told of the displacement that
    /// the report holds, if it holds one, and the next report is asked for.
    pub open spec fn mouse_step(self, slot: u8, endpoint: u8, data: Seq<u8>) -> Step {
        if endpoint == DCI_CONTROL {
            self.interrupt_transfer(slot)
        } else if endpoint == spec_dci_in(self.endpoints[slot as int].endpoint) {
            let next = self.interrupt_transfer(slot);
            match spec_report_displacement(data) {
                None => next,
                Some(displacement) => Step {
                    state: next.state,
                    actions: seq![
                        Action::MouseMoved {
                            displacement_x: displacement.0,
                            displacement_y: displacement.1,
                        },
                    ] + next.actions,
                    status: Ok(()),
                },
            }
        } else {
            self.stay(Ok(()))
        }
    }

    /// A transfer on the endpoint of index `endpoint` of the device in
    /// `slot` ended with `code`.
    pub open spec fn on_transfer(
        self,
        slot: u8,
        endpoint: u8,
        code: u8,
        ports: Seq<u32>,
        data: Seq<u8>,
    ) -> Step {
        let port = self.slot_ports[slot as int];
        if port == 0 {
            self.stay(Err(Error::InvalidSlotID))
        } else if code != COMPLETION_SUCCESS && code != COMPLETION_SHORT_PACKET {
            self.stay(Err(Error::TransferFailed))
        } else if self.phases[port as int] == ConfigPhase::InitializingDevice {
            if endpoint == DCI_CONTROL {
                self.initialization_step(slot, port, portsc_of(ports, port), data)
            } else {
                self.stay(Ok(()))
            }
        } else if self.phases[port as int] == ConfigPhase::Configured {
            self.mouse_step(slot, endpoint, data)
        } else {
            self.stay(Ok(()))
        }
    }

    /// What an event does to the port and device state.
    pub open spec fn dispatch(self, event: Event, ports: Seq<u32>, data: Seq<u8>) -> Step {
        match event {
            Event::Transfer { slot, endpoint, code } => self.on_transfer(
                slot,
                endpoint,
                code,
                ports,
                data,
            ),
            Event::CommandCompletion { slot, code, command } => self.on_command_completion(
                slot,
                command,
                ports,
            ),
            Event::PortStatusChange { port } => self.on_port_status_change(port, ports),
            Event::Unknown { trb_type } => self.stay(Err(Error::NotImplemented)),
        }
    }

    /// Address of the block under the event ring's cursor.
    pub open spec fn dequeue_pointer(self) -> u64 {
        (self.layout.event_ring + self.events.index * TRB_SIZE) as u64
    }

    /// Address of the event ring dequeue pointer register.
    pub open spec fn erdp_address(self) -> u64 {
        (self.blocks.runtime + 0x38) as u64
    }

    /// One event is taken from the event ring, whose block under the
    /// cursor reads `front`. Where `front` is no unread event, nothing
    /// changes. Else the event is dispatched, the cursor moves past it
    /// whether or not the dispatch succeeded, and the controller is told
    /// the new position. `ports` holds the status register of each port,
    /// port 1 first; `data` is what the buffer of the slot that `front`
    /// names holds.
    pub open spec fn process_event(self, front: Trb, ports: Seq<u32>, data: Seq<u8>) -> Step {
        if self.lifecycle != Lifecycle::Running {
            self.stay(Err(Error::InvalidPhase))
        } else if front.spec_cycle_bit() != self.events.cycle {
            self.stay(Ok(()))
        } else {
            let handled = self.dispatch(front.spec_event(), ports, data);
            let state = ControllerState { events: self.events.advanced(), ..handled.state };
            Step {
                state,
                actions: handled.actions.push(
                    Action::Write(
                        MmioWrite {
                            address: state.erdp_address(),
                            value: state.dequeue_pointer(),
                            width: Width::Qword,
                        },
                    ),
                ),
                status: handled.status,
            }
        }
    }

    /// The boot sequence asks for the device at `port` to be configured.
    pub open spec fn configure_port(self, port: u8, portsc: u32) -> Step {
        if self.lifecycle != Lifecycle::Running {
            self.stay(Err(Error::InvalidPhase))
        } else if port == 0 || port > self.max_ports {
            self.stay(Err(Error::IndexOutOfRange))
        } else if self.phases[port as int] == ConfigPhase::NotConnected {
            self.reset_port(port, portsc)
        } else {
            self.stay(Ok(()))
        }
    }
}

impl ControllerState {
    /// A register write of one dword.
    pub open spec fn write_dword(address: int, value: u32) -> Action {
        Action::Write(MmioWrite { address: address as u64, value: value as u64, width: Width::Dword })
    }

    /// A register write of one quadword.
    pub open spec fn write_qword(address: int, value: u64) -> Action {
        Action::Write(MmioWrite { address: address as u64, value, width: Width::Qword })
    }

    /// The single entry of the event ring segment table, laid out as a
    /// block: the segment's address in the parameter, its size in blocks in
    /// the status dword.
    pub open spec fn segment_table_entry(self) -> Trb {
        Trb {
            parameter_low: (self.layout.event_ring % 0x1_0000_0000) as u32,
            parameter_high: (self.layout.event_ring / 0x1_0000_0000) as u32,
            status: EVENT_RING_SIZE as u32,
            control: 0,
        }
    }

    /// The actions that program a reset controller: the number of slots,
    /// the device context array, the command ring with its cycle state
    /// set, the event ring segment table and the event ring of the primary
    /// interrupter, and the two interrupt enables, the controller's last.
    pub open spec fn programming(self, usbcmd: u32) -> Seq<Action> {
        seq![
            Self::write_dword(self.blocks.operational + 0x38, self.max_slots as u32),
            Self::write_qword(self.blocks.operational + 0x30, self.layout.device_contexts),
            Self::write_qword(self.blocks.operational + 0x18, (self.layout.command_ring + 1) as u64),
            Action::StoreTrb { address: self.layout.event_ring_table, trb: self.segment_table_entry() },
            Self::write_dword(self.blocks.runtime + 0x28, 1),
            Self::write_qword(self.blocks.runtime + 0x38, self.layout.event_ring),
            Self::write_qword(self.blocks.runtime + 0x30, self.layout.event_ring_table),
            Self::write_dword(self.blocks.runtime + 0x20, IMAN_PENDING_AND_ENABLE),
            Self::write_dword(self.blocks.operational as int, spec_interrupt_enable_command(usbcmd)),
        ]
    }

    /// One step of the initialization, given what the command and status
    /// registers read now. A fresh controller is told to stop. Once it has
    /// stopped it is told to reset. Once the reset is over and the
    /// controller is ready it is programmed, and is then initialized. While
    /// the hardware is not that far, nothing happens. A controller that is
    /// already initialized refuses.
    pub open spec fn initialize(self, usbcmd: u32, usbsts: u32) -> Step {
        match self.lifecycle {
            Lifecycle::Created => Step {
                state: ControllerState { lifecycle: Lifecycle::Halting, ..self },
                actions: seq![
                    Self::write_dword(self.blocks.operational as int, spec_halt_command(usbcmd)),
                ],
                status: Ok(()),
            },
            Lifecycle::Halting => if spec_is_halted(usbsts) {
                Step {
                    state: ControllerState { lifecycle: Lifecycle::Resetting, ..self },
                    actions: seq![
                        Self::write_dword(
                            self.blocks.operational as int,
                            spec_reset_command(usbcmd),
                        ),
                    ],
                    status: Ok(()),
                }
            } else {
                self.stay(Ok(()))
            },
            Lifecycle::Resetting => if !spec_is_resetting(usbcmd) && !spec_is_not_ready(usbsts) {
                Step {
                    state: ControllerState { lifecycle: Lifecycle::Initialized, ..self },
                    actions: self.programming(usbcmd),
                    status: Ok(()),
                }
            } else {
                self.stay(Ok(()))
            },
            Lifecycle::Initialized | Lifecycle::Running => self.stay(Err(Error::InvalidPhase)),
        }
    }

    /// An initialized controller is set running; any other refuses.
    pub open spec fn run(self, usbcmd: u32) -> Step {
        if self.lifecycle == Lifecycle::Initialized {
            Step {
                state: ControllerState { lifecycle: Lifecycle::Running, ..self },
                actions: seq![
                    Self::write_dword(self.blocks.operational as int, spec_run_command(usbcmd)),
                ],
                status: Ok(()),
            }
        } else {
            self.stay(Err(Error::InvalidPhase))
        }
    }

    /// The boot sequence looks at the ports from `from` to the last one and
    /// has each configured that reports a device; a port without one is
    /// passed over. A port that fails is left behind and the next one is
    /// tried; the status is that of the last failure.
    pub open spec fn configure_connected_ports(self, ports: Seq<u32>, from: int) -> Step
        decreases PORT_NUMBERS - from,
    {
        if from < 1 || from > self.max_ports || from >= PORT_NUMBERS {
            self.stay(Ok(()))
        } else {
            let portsc = portsc_of(ports, from as u8);
            let first = if portsc_connected(portsc) {
                self.configure_port(from as u8, portsc)
            } else {
                self.stay(Ok(()))
            };
            let rest = first.state.configure_connected_ports(ports, from + 1);
            Step {
                state: rest.state,
                actions: first.actions + rest.actions,
                status: if rest.status is Err {
                    rest.status
                } else {
                    first.status
                },
            }
        }
    }
}

/// Resetting a port that is not being configured, or waits, keeps the state
/// well formed and always succeeds.
pub proof fn lemma_reset_port_keeps_wf(state: ControllerState, port: u8, portsc: u32)
    requires
        state.wf(),
        state.phases[port as int] == ConfigPhase::NotConnected || state.phases[port as int]
            == ConfigPhase::WaitingAddressed,
    ensures
        state.reset_port(port, portsc).state.wf(),
        state.reset_port(port, portsc).status is Ok,
        same_frame(state, state.reset_port(port, portsc).state),
        state.reset_port(port, portsc).state.events == state.events,
        ports_advance(state, state.reset_port(port, portsc).state),
{
    let after = state.reset_port(port, portsc).state;
    assert forall|p: int| 0 <= p < PORT_NUMBERS implies state.phases[p].spec_port_state().rank() <= (
    #[trigger] after.phases[p]).spec_port_state().rank() by {
        if p != port {
            assert(after.phases[p] == state.phases[p]);
        }
    }
    assert forall|p: int|
        0 <= p < after.phases.len() && (#[trigger] after.phases[p]).uses_default_address() implies p
        == after.addressing_port by {
        if p != port {
            assert(after.phases[p] == state.phases[p]);
        }
    }
    if after.addressing_port != 0 && after.addressing_port != port {
        assert(after.phases[after.addressing_port as int] == state.phases[state.addressing_port as int]);
    }
}

/// A change of the phase of `port` to one that does not use the default
/// address, made while `port` does not own it, keeps the state well formed.
pub proof fn lemma_leaving_default_address_keeps_wf(state: ControllerState, port: u8, phase: ConfigPhase)
    requires
        state.wf(),
        port != 0,
        !phase.uses_default_address(),
        port != state.addressing_port,
    ensures
        state.with_phase(port, phase).wf(),
{
    let after = state.with_phase(port, phase);
    assert forall|p: int|
        0 <= p < after.phases.len() && (#[trigger] after.phases[p]).uses_default_address() implies p
        == after.addressing_port by {
        if p != port {
            assert(after.phases[p] == state.phases[p]);
        }
    }
    if after.addressing_port != 0 {
        assert(after.phases[after.addressing_port as int] == state.phases[state.addressing_port as int]);
    }
}

/// Starting a control transfer keeps the state well formed and changes no
/// port.
pub proof fn lemma_control_transfer_keeps_wf(state: ControllerState, slot: u8, setup: SetupData)
    requires
        state.wf(),
    ensures
        state.control_transfer(slot, setup).state.wf(),
        state.control_transfer(slot, setup).status is Ok,
        same_frame(state, state.control_transfer(slot, setup).state),
        state.control_transfer(slot, setup).state.events == state.events,
        state.control_transfer(slot, setup).state.phases == state.phases,
        state.control_transfer(slot, setup).state.addressing_port == state.addressing_port,
{
    lemma_ring_push_all_wf(
        state.layout.control_ring(slot),
        state.control_rings[slot as int],
        control_transfer_blocks(setup, state.layout.buffer(slot)),
    );
    let after = state.control_transfer(slot, setup).state;
    assert forall|s: int| 0 <= s < SLOT_NUMBERS implies (#[trigger] after.control_rings[s]).wf() by {
        if s != slot {
            assert(after.control_rings[s] == state.control_rings[s]);
        }
    }
}

/// Asking the mouse for a report keeps the state well formed.
pub proof fn lemma_interrupt_transfer_keeps_wf(state: ControllerState, slot: u8)
    requires
        state.wf(),
    ensures
        state.interrupt_transfer(slot).state.wf(),
        same_frame(state, state.interrupt_transfer(slot).state),
        state.interrupt_transfer(slot).state.events == state.events,
        state.interrupt_transfer(slot).state.phases == state.phases,
{
    let after = state.interrupt_transfer(slot).state;
    assert(state.interrupt_rings[slot as int].wf());
    assert forall|s: int| 0 <= s < SLOT_NUMBERS implies (#[trigger] after.interrupt_rings[s]).wf() by {
        if s != slot {
            assert(after.interrupt_rings[s] == state.interrupt_rings[s]);
        }
    }
}

/// No port has gone back on its way from disconnected over connecting and
/// addressing to configured.
pub open spec fn ports_advance(before: ControllerState, after: ControllerState) -> bool {
    forall|p: int|
        0 <= p < PORT_NUMBERS ==> before.phases[p].spec_port_state().rank() <= (
        #[trigger] after.phases[p]).spec_port_state().rank()
}

/// What no operation on ports and events changes: the stage of the
/// controller's life, where its registers and memory lie, and the numbers
/// of its ports and slots.
pub open spec fn same_frame(before: ControllerState, after: ControllerState) -> bool {
    &&& after.lifecycle == before.lifecycle
    &&& after.blocks == before.blocks
    &&& after.layout == before.layout
    &&& after.max_ports == before.max_ports
    &&& after.max_slots == before.max_slots
}

proof fn lemma_command_completion_wf(state: ControllerState, slot: u8, command: u64, ports: Seq<u32>)
    requires
        state.wf(),
    ensures
        state.on_command_completion(slot, command, ports).state.wf(),
        state.on_command_completion(slot, command, ports).state.events == state.events,
        same_frame(state, state.on_command_completion(slot, command, ports).state),
        ports_advance(state, state.on_command_completion(slot, command, ports).state),
        state.on_command_completion(slot, command, ports).status is Err ==> state.on_command_completion(
            slot,
            command,
            ports,
        ).state == state && state.on_command_completion(slot, command, ports).actions.len() == 0,
{
    let after = state.on_command_completion(slot, command, ports).state;
    let issued = state.commands.issued_type(command);
    if issued == Some(TRB_ENABLE_SLOT_COMMAND) {
        let port = state.addressing_port;
        if state.phases[port as int] == ConfigPhase::EnablingSlot && slot != 0 && slot
            <= state.max_slots && state.slot_ports[slot as int] == 0 {
            let trb = Trb::spec_command(
                TRB_ADDRESS_DEVICE_COMMAND,
                slot,
                state.layout.input_context(slot),
            );
            crate::xhci::ring::lemma_issued_command_is_found(state.commands, trb);
            assert forall|p: int|
                0 <= p < after.phases.len() && (#[trigger] after.phases[p]).uses_default_address() implies p
                == after.addressing_port by {
                if p != port {
                    assert(after.phases[p] == state.phases[p]);
                }
            }
            assert forall|p: int| 0 <= p < PORT_NUMBERS implies state.phases[p].spec_port_state().rank()
                <= (#[trigger] after.phases[p]).spec_port_state().rank() by {
                if p != port {
                    assert(after.phases[p] == state.phases[p]);
                }
            }
            assert forall|s: int| 0 <= s < SLOT_NUMBERS implies (#[trigger] after.control_rings[s]).wf() by {
                if s != slot {
                    assert(after.control_rings[s] == state.control_rings[s]);
                }
            }
            assert forall|s: int| 0 <= s < SLOT_NUMBERS implies (
            #[trigger] after.interrupt_rings[s]).wf() by {
                if s != slot {
                    assert(after.interrupt_rings[s] == state.interrupt_rings[s]);
                }
            }
        }
    } else if issued == Some(TRB_ADDRESS_DEVICE_COMMAND) {
        let port = state.slot_ports[slot as int];
        if port != 0 && port == state.addressing_port && state.phases[port as int]
            == ConfigPhase::AddressingDevice {
            let released = ControllerState {
                addressing_port: 0,
                ..state.with_phase(port, ConfigPhase::InitializingDevice)
            };
            assert(released.wf()) by {
                assert forall|p: int|
                    0 <= p < released.phases.len() && (
                    #[trigger] released.phases[p]).uses_default_address() implies p
                    == released.addressing_port by {
                    if p != port {
                        assert(released.phases[p] == state.phases[p]);
                    }
                }
            }
            let next = if exists|w: int| is_first_waiting(released.phases, w) {
                let w = choose|w: int| is_first_waiting(released.phases, w);
                lemma_reset_port_keeps_wf(released, w as u8, portsc_of(ports, w as u8));
                released.reset_port(w as u8, portsc_of(ports, w as u8))
            } else {
                released.stay(Ok(()))
            };
            lemma_control_transfer_keeps_wf(
                next.state,
                slot,
                SetupData::spec_get_descriptor(DESCRIPTOR_DEVICE, 0, DEVICE_DESCRIPTOR_LENGTH),
            );
            assert forall|p: int| 0 <= p < PORT_NUMBERS implies state.phases[p].spec_port_state().rank()
                <= (#[trigger] after.phases[p]).spec_port_state().rank() by {
                if p != port {
                    assert(released.phases[p] == state.phases[p]);
                }
                assert(released.phases[p].spec_port_state().rank() <= next.state.phases[p].spec_port_state().rank());
            }
        }
    } else if issued == Some(TRB_CONFIGURE_ENDPOINT_COMMAND) {
        let port = state.slot_ports[slot as int];
        if port != 0 && state.phases[port as int] == ConfigPhase::ConfiguringEndpoints {
            assert(port != state.addressing_port) by {
                if port == state.addressing_port {
                    assert(state.phases[state.addressing_port as int].uses_default_address());
                }
            }
            lemma_leaving_default_address_keeps_wf(state, port, ConfigPhase::Configured);
            lemma_control_transfer_keeps_wf(
                state.with_phase(port, ConfigPhase::Configured),
                slot,
                SetupData::spec_set_boot_protocol(state.endpoints[slot as int].interface),
            );
            assert forall|p: int| 0 <= p < PORT_NUMBERS implies state.phases[p].spec_port_state().rank()
                <= (#[trigger] after.phases[p]).spec_port_state().rank() by {
                if p != port {
                    assert(after.phases[p] == state.phases[p]);
                }
            }
        }
    }
}

proof fn lemma_transfer_wf(
    state: ControllerState,
    slot: u8,
    endpoint: u8,
    code: u8,
    ports: Seq<u32>,
    data: Seq<u8>,
)
    requires
        state.wf(),
    ensures
        state.on_transfer(slot, endpoint, code, ports, data).state.wf(),
        state.on_transfer(slot, endpoint, code, ports, data).state.events == state.events,
        same_frame(state, state.on_transfer(slot, endpoint, code, ports, data).state),
        ports_advance(state, state.on_transfer(slot, endpoint, code, ports, data).state),
        state.on_transfer(slot, endpoint, code, ports, data).status is Err ==> state.on_transfer(
            slot,
            endpoint,
            code,
            ports,
            data,
        ).state == state && state.on_transfer(slot, endpoint, code, ports, data).actions.len()
            == 0,
{
    let port = state.slot_ports[slot as int];
    if port != 0 && (code == COMPLETION_SUCCESS || code == COMPLETION_SHORT_PACKET) {
        if state.phases[port as int] == ConfigPhase::InitializingDevice {
            if endpoint == DCI_CONTROL {
                let done = state.slot_stages[slot as int];
                if done == 0 {
                    let counted = ControllerState {
                        slot_stages: state.slot_stages.update(slot as int, 1),
                        ..state
                    };
                    lemma_control_transfer_keeps_wf(
                        counted,
                        slot,
                        SetupData::spec_get_descriptor(DESCRIPTOR_CONFIGURATION, 0, BUFFER_SIZE),
                    );
                } else if done == 1 {
                    match spec_find_mouse_endpoint(data) {
                        None => {},
                        Some(found) => {
                            let counted = ControllerState {
                                slot_stages: state.slot_stages.update(slot as int, 2),
                                endpoints: state.endpoints.update(slot as int, found),
                                ..state
                            };
                            lemma_control_transfer_keeps_wf(
                                counted,
                                slot,
                                SetupData::spec_set_configuration(found.configuration),
                            );
                        },
                    }
                } else {
                    let trb = Trb::spec_command(
                        TRB_CONFIGURE_ENDPOINT_COMMAND,
                        slot,
                        state.layout.input_context(slot),
                    );
                    crate::xhci::ring::lemma_issued_command_is_found(state.commands, trb);
                    assert(port != state.addressing_port) by {
                        if port == state.addressing_port {
                            assert(state.phases[state.addressing_port as int].uses_default_address());
                        }
                    }
                    lemma_leaving_default_address_keeps_wf(state, port, ConfigPhase::ConfiguringEndpoints);
                    let after = state.configure_endpoints(slot, port, portsc_of(ports, port)).state;
                    assert forall|p: int|
                        0 <= p < PORT_NUMBERS implies state.phases[p].spec_port_state().rank() <= (
                    #[trigger] after.phases[p]).spec_port_state().rank() by {
                        if p != port {
                            assert(after.phases[p] == state.phases[p]);
                        }
                    }
                }
            }
        } else if state.phases[port as int] == ConfigPhase::Configured {
            lemma_interrupt_transfer_keeps_wf(state, slot);
        }
    }
}

/// Handling an event keeps the state well formed: in particular, never
/// does a second port come to use the default address. It moves neither
/// the event cursor nor the controller's stage of life, it sends no port
/// back on its way to a configured device, and an event that is refused
/// changes nothing.
pub proof fn lemma_dispatch_wf(state: ControllerState, event: Event, ports: Seq<u32>, data: Seq<u8>)
    requires
        state.wf(),
    ensures
        state.dispatch(event, ports, data).state.wf(),
        state.dispatch(event, ports, data).state.events == state.events,
        same_frame(state, state.dispatch(event, ports, data).state),
        ports_advance(state, state.dispatch(event, ports, data).state),
        state.dispatch(event, ports, data).status is Err ==> state.dispatch(event, ports, data).state
            == state && state.dispatch(event, ports, data).actions.len() == 0,
{
    match event {
        Event::Transfer { slot, endpoint, code } => {
            lemma_transfer_wf(state, slot, endpoint, code, ports, data);
        },
        Event::CommandCompletion { slot, code, command } => {
            lemma_command_completion_wf(state, slot, command, ports);
        },
        Event::PortStatusChange { port } => {
            if port != 0 && port <= state.max_ports {
                if state.phases[port as int] == ConfigPhase::NotConnected {
                    lemma_reset_port_keeps_wf(state, port, portsc_of(ports, port));
                } else if state.phases[port as int] == ConfigPhase::ResettingPort {
                    let trb = Trb::spec_command(TRB_ENABLE_SLOT_COMMAND, 0, 0);
                    crate::xhci::ring::lemma_issued_command_is_found(state.commands, trb);
                    let after = state.enable_slot(port, portsc_of(ports, port)).state;
                    assert forall|p: int|
                        0 <= p < after.phases.len() && (
                        #[trigger] after.phases[p]).uses_default_address() implies p
                        == after.addressing_port by {
                        if p != port {
                            assert(after.phases[p] == state.phases[p]);
                        }
                    }
                    assert forall|p: int|
                        0 <= p < PORT_NUMBERS implies state.phases[p].spec_port_state().rank() <= (
                    #[trigger] after.phases[p]).spec_port_state().rank() by {
                        if p != port {
                            assert(after.phases[p] == state.phases[p]);
                        }
                    }
                }
            }
        },
        Event::Unknown { trb_type } => {},
    }
}

/// Processing an event keeps the state well formed. Without an unread
/// event under the cursor it changes nothing at all: the cursor stays, no
/// port or device changes, and nothing is to be done. With one, the cursor
/// moves past exactly that event.
pub proof fn lemma_process_event(state: ControllerState, front: Trb, ports: Seq<u32>, data: Seq<u8>)
    requires
        state.wf(),
    ensures
        state.process_event(front, ports, data).state.wf(),
        same_frame(state, state.process_event(front, ports, data).state),
        ports_advance(state, state.process_event(front, ports, data).state),
        front.spec_cycle_bit() != state.events.cycle ==> state.process_event(front, ports, data).state
            == state && state.process_event(front, ports, data).actions.len() == 0,
        state.lifecycle == Lifecycle::Running && front.spec_cycle_bit() == state.events.cycle
            ==> state.process_event(front, ports, data).state.events == state.events.advanced(),
{
    lemma_dispatch_wf(state, front.spec_event(), ports, data);
}

/// Configuring a port keeps the state well formed, and does nothing for a
/// port without a device.
pub proof fn lemma_configure_port(state: ControllerState, port: u8, portsc: u32)
    requires
        state.wf(),
    ensures
        state.configure_port(port, portsc).state.wf(),
        same_frame(state, state.configure_port(port, portsc).state),
        ports_advance(state, state.configure_port(port, portsc).state),
        state.configure_port(port, portsc).state.events == state.events,
        !portsc_connected(portsc) ==> state.configure_port(port, portsc).state == state
            && state.configure_port(port, portsc).actions.len() == 0,
{
    if state.lifecycle == Lifecycle::Running && port != 0 && port <= state.max_ports
        && state.phases[port as int] == ConfigPhase::NotConnected {
        lemma_reset_port_keeps_wf(state, port, portsc);
    }
}

/// A controller's life only moves forward: no operation takes it to an
/// earlier stage, initialization advances it by at most one stage at a
/// time, and only `run` makes it run.
pub proof fn lemma_lifecycle_only_forward(
    state: ControllerState,
    usbcmd: u32,
    usbsts: u32,
    front: Trb,
    ports: Seq<u32>,
    data: Seq<u8>,
    port: u8,
    portsc: u32,
)
    requires
        state.wf(),
    ensures
        state.initialize(usbcmd, usbsts).state.wf(),
        state.run(usbcmd).state.wf(),
        state.lifecycle.rank() <= state.initialize(usbcmd, usbsts).state.lifecycle.rank()
            <= state.lifecycle.rank() + 1,
        state.initialize(usbcmd, usbsts).state.lifecycle != Lifecycle::Running || state.lifecycle
            == Lifecycle::Running,
        state.lifecycle.rank() <= state.run(usbcmd).state.lifecycle.rank(),
        state.run(usbcmd).status is Ok <==> state.lifecycle == Lifecycle::Initialized,
        state.run(usbcmd).status is Ok ==> state.run(usbcmd).state.lifecycle == Lifecycle::Running,
        state.process_event(front, ports, data).state.lifecycle == state.lifecycle,
        state.configure_port(port, portsc).state.lifecycle == state.lifecycle,
{
    lemma_process_event(state, front, ports, data);
    lemma_configure_port(state, port, portsc);
}

/// The enumeration of ports at boot keeps the state well formed and never
/// touches a port that reports no device.
pub proof fn lemma_configure_connected_ports(state: ControllerState, ports: Seq<u32>, from: int)
    requires
        state.wf(),
    ensures
        state.configure_connected_ports(ports, from).state.wf(),
        same_frame(state, state.configure_connected_ports(ports, from).state),
        ports_advance(state, state.configure_connected_ports(ports, from).state),
        state.configure_connected_ports(ports, from).state.events == state.events,
        forall|p: int|
            0 <= p < PORT_NUMBERS && !portsc_connected(portsc_of(ports, p as u8))
                ==> #[trigger] state.configure_connected_ports(ports, from).state.phases[p]
                == state.phases[p],
    decreases PORT_NUMBERS - from,
{
    if from >= 1 && from <= state.max_ports {
        let portsc = portsc_of(ports, from as u8);
        lemma_configure_port(state, from as u8, portsc);
        let first = if portsc_connected(portsc) {
            state.configure_port(from as u8, portsc)
        } else {
            state.stay(Ok(()))
        };
        lemma_configure_connected_ports(first.state, ports, from + 1);
        assert forall|p: int|
            0 <= p < PORT_NUMBERS && !portsc_connected(portsc_of(ports, p as u8)) implies (
        #[trigger] first.state.phases[p]) == state.phases[p] by {
            if p == from {
            }
        }
    }
}

} // verus!
