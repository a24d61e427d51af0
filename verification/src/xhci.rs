//! Driver logic for a USB xHCI host controller.
//!
//! The controller's registers and rings live in memory that only the caller
//! can reach. What is kept here is the driver's own state and every decision
//! it takes: which register to write with which value, which command to
//! issue, what an event means for a port. Each operation returns the actions
//! that the caller is to carry out, in order.

pub mod context;
pub mod port;
pub mod registers;
pub mod ring;
pub mod state;
pub mod trb;

use crate::error::Error;
use crate::mouse::report_displacement;
use crate::usb::descriptor::{find_mouse_endpoint, MouseEndpoint};
use crate::usb::setup::{
    SetupData, DESCRIPTOR_CONFIGURATION, DESCRIPTOR_DEVICE, DEVICE_DESCRIPTOR_LENGTH,
};
use crate::xhci::context::{
    add_flags, dci_in, endpoint_context, interval_field, slot_context_0, slot_context_1,
    EndpointContext, CONTEXT_SIZE, DCI_CONTROL, ENDPOINT_TYPE_CONTROL, ENDPOINT_TYPE_INTERRUPT_IN,
};
use crate::xhci::port::{max_packet_size, portsc_connected, ConfigPhase, Port};
use crate::xhci::registers::{
    halt_command, interrupt_enable_command, is_halted, is_not_ready, is_resetting, reset_command,
    run_command, spec_block_addresses, valid_mmio_base, CapabilityRegisters, MmioWrite,
    RegisterBlocks, Width, IMAN_PENDING_AND_ENABLE,
};
use crate::xhci::ring::{CommandRing, EventRing};
use crate::xhci::state::{
    control_transfer_blocks, initial_state, is_first_waiting, lemma_configure_port,
    lemma_dispatch_wf, lemma_first_waiting_unique, lemma_process_event, portsc_of, ring_push, ring_push_all, spec_report_length, Action, ControllerState,
    DmaLayout, Lifecycle, RingPosition, Step, BUFFER_SIZE, COMMAND_RING_SIZE,
    DEVICE_CONTEXT_ARRAY_SIZE, DEVICE_CONTEXT_SIZE, DEVICE_SLOTS, EVENT_RING_SIZE,
    INITIALIZATION_TRANSFERS, INPUT_CONTEXT_SIZE, PORT_NUMBERS, REGION_SIZE, SLOT_NUMBERS,
    SLOT_RINGS_SIZE, TRANSFER_RING_SIZE,
};
use crate::xhci::trb::{
    Event, Trb, COMPLETION_SHORT_PACKET, COMPLETION_SUCCESS, TRANSFER_IN_DATA, TRANSFER_NO_DATA,
    TRANSFER_OUT_DATA, TRB_ADDRESS_DEVICE_COMMAND, TRB_CONFIGURE_ENDPOINT_COMMAND,
    TRB_ENABLE_SLOT_COMMAND, TRB_SIZE,
};
use vstd::prelude::*;

verus! {

/// What an operation of the controller hands back: the actions to carry
/// out, first to last, and whether the operation succeeded.
pub struct Outcome {
    pub actions: Vec<Action>,
    pub status: Result<(), Error>,
}

impl Outcome {
    /// The outcome is the one that `step` describes.
    pub open spec fn matches_step(&self, step: Step) -> bool {
        self.actions@ == step.actions && self.status == step.status
    }
}

/// The driver's state for one host controller. Its view is the
/// `ControllerState` whose operations the contracts name.
pub struct Controller {
    lifecycle: Lifecycle,
    blocks: RegisterBlocks,
    layout: DmaLayout,
    max_ports: u8,
    max_slots: u8,
    phases: Vec<ConfigPhase>,
    addressing_port: u8,
    slot_ports: Vec<u8>,
    slot_stages: Vec<u8>,
    control_rings: Vec<RingPosition>,
    interrupt_rings: Vec<RingPosition>,
    endpoints: Vec<MouseEndpoint>,
    command_ring: CommandRing,
    event_ring: EventRing,
}

impl View for Controller {
    type V = ControllerState;

    closed spec fn view(&self) -> ControllerState {
        ControllerState {
            lifecycle: self.lifecycle,
            blocks: self.blocks@,
            layout: self.layout,
            max_ports: self.max_ports,
            max_slots: self.max_slots,
            phases: self.phases@,
            addressing_port: self.addressing_port,
            slot_ports: self.slot_ports@,
            slot_stages: self.slot_stages@,
            control_rings: self.control_rings@,
            interrupt_rings: self.interrupt_rings@,
            endpoints: self.endpoints@,
            commands: self.command_ring@,
            events: self.event_ring@,
        }
    }
}

fn region_ok(address: u64) -> (ok: bool)
    ensures
        ok == DmaLayout::region(address),
{
    address % 64 == 0 && address <= u64::MAX - REGION_SIZE
}

fn portsc_at(ports: &Vec<u32>, port: u8) -> (portsc: u32)
    ensures
        portsc == portsc_of(ports@, port),
{
    if port >= 1 && (port as usize) <= ports.len() {
        ports[(port - 1) as usize]
    } else {
        0
    }
}

impl DmaLayout {
    /// Address of the input context of `slot`.
    pub fn input_context_address(&self, slot: u8) -> (address: u64)
        requires
            self.valid(),
        ensures
            address == self.input_context(slot),
    {
        self.input_contexts + (slot as u64) * INPUT_CONTEXT_SIZE
    }

    /// Address of the device context of `slot`.
    pub fn device_context_address(&self, slot: u8) -> (address: u64)
        requires
            self.valid(),
        ensures
            address == self.device_context(slot),
    {
        self.device_contexts + DEVICE_CONTEXT_ARRAY_SIZE + (slot as u64) * DEVICE_CONTEXT_SIZE
    }

    /// Address of the entry of `slot` in the device context base address
    /// array.
    pub fn device_context_entry_address(&self, slot: u8) -> (address: u64)
        requires
            self.valid(),
        ensures
            address == self.device_context_entry(slot),
    {
        self.device_contexts + (slot as u64) * 8
    }

    /// Address of the transfer ring of the control endpoint of `slot`.
    pub fn control_ring_address(&self, slot: u8) -> (address: u64)
        requires
            self.valid(),
        ensures
            address == self.control_ring(slot),
            address + 2 * SLOT_RINGS_SIZE <= u64::MAX,
    {
        self.transfer_rings + (slot as u64) * SLOT_RINGS_SIZE
    }

    /// Address of the transfer ring of the interrupt endpoint of `slot`.
    pub fn interrupt_ring_address(&self, slot: u8) -> (address: u64)
        requires
            self.valid(),
        ensures
            address == self.interrupt_ring(slot),
            address + SLOT_RINGS_SIZE <= u64::MAX,
    {
        self.transfer_rings + (slot as u64) * SLOT_RINGS_SIZE + SLOT_RINGS_SIZE / 2
    }

    /// Address of the data buffer of `slot`.
    pub fn buffer_address(&self, slot: u8) -> (address: u64)
        requires
            self.valid(),
        ensures
            address == self.buffer(slot),
    {
        self.buffers + (slot as u64) * (BUFFER_SIZE as u64)
    }
}

fn report_length(endpoint: MouseEndpoint) -> (length: u16)
    ensures
        length == spec_report_length(endpoint),
{
    if endpoint.max_packet_size < BUFFER_SIZE {
        endpoint.max_packet_size
    } else {
        BUFFER_SIZE
    }
}

/// Puts `trb` on the transfer ring at `base` and appends the stores.
fn push_on_ring(base: u64, position: RingPosition, trb: Trb, actions: &mut Vec<Action>) -> (next:
    RingPosition)
    requires
        position.wf(),
        base + SLOT_RINGS_SIZE <= u64::MAX,
    ensures
        final(actions)@ == old(actions)@ + ring_push(base, position, trb).0,
        next == ring_push(base, position, trb).1,
        next.wf(),
{
    actions.push(
        Action::StoreTrb {
            address: base + (position.index as u64) * TRB_SIZE,
            trb: trb.with_cycle(position.cycle),
        },
    );
    if position.index + 2 == TRANSFER_RING_SIZE {
        actions.push(
            Action::StoreTrb {
                address: base + ((TRANSFER_RING_SIZE - 1) as u64) * TRB_SIZE,
                trb: Trb::link(base, true).with_cycle(position.cycle),
            },
        );
        assert(actions@ =~= old(actions)@ + ring_push(base, position, trb).0);
        RingPosition { index: 0, cycle: !position.cycle }
    } else {
        assert(actions@ =~= old(actions)@ + ring_push(base, position, trb).0);
        RingPosition { index: position.index + 1, cycle: position.cycle }
    }
}

/// The blocks of a control transfer; see `control_transfer_blocks`.
fn blocks_of(setup: SetupData, buffer: u64) -> (trbs: Vec<Trb>)
    ensures
        trbs@ == control_transfer_blocks(setup, buffer),
{
    let mut trbs: Vec<Trb> = Vec::new();
    if setup.length == 0 {
        trbs.push(Trb::setup_stage(setup.parameter(), TRANSFER_NO_DATA));
        trbs.push(Trb::status_stage(true));
    } else if setup.device_to_host() {
        trbs.push(Trb::setup_stage(setup.parameter(), TRANSFER_IN_DATA));
        trbs.push(Trb::data_stage(buffer, setup.length, true));
        trbs.push(Trb::status_stage(false));
    } else {
        trbs.push(Trb::setup_stage(setup.parameter(), TRANSFER_OUT_DATA));
        trbs.push(Trb::data_stage(buffer, setup.length, false));
        trbs.push(Trb::status_stage(true));
    }
    assert(trbs@ =~= control_transfer_blocks(setup, buffer));
    trbs
}

/// Appends the actions that fill an input context; see
/// `ControllerState::input_context_actions`.
fn push_input_context(
    actions: &mut Vec<Action>,
    input_context: u64,
    dci: u8,
    speed: u8,
    port: u8,
    endpoint: EndpointContext,
)
    requires
        dci <= 31,
        input_context + INPUT_CONTEXT_SIZE <= u64::MAX,
    ensures
        final(actions)@ == old(actions)@ + ControllerState::input_context_actions(
            input_context,
            dci,
            speed,
            port,
            endpoint,
        ),
{
    let slot_context = input_context + CONTEXT_SIZE;
    let endpoint_context = input_context + CONTEXT_SIZE * (dci as u64 + 1);
    actions.push(Action::ClearMemory { address: input_context, length: INPUT_CONTEXT_SIZE as u32 });
    actions.push(Action::StoreDword { address: input_context + 4, dword: add_flags(dci) });
    actions.push(Action::StoreDword { address: slot_context, dword: slot_context_0(speed, dci) });
    actions.push(Action::StoreDword { address: slot_context + 4, dword: slot_context_1(port) });
    actions.push(Action::StoreDword { address: endpoint_context, dword: endpoint.d0 });
    actions.push(Action::StoreDword { address: endpoint_context + 4, dword: endpoint.d1 });
    actions.push(Action::StoreDword { address: endpoint_context + 8, dword: endpoint.d2 });
    actions.push(Action::StoreDword { address: endpoint_context + 12, dword: endpoint.d3 });
    actions.push(Action::StoreDword { address: endpoint_context + 16, dword: endpoint.d4 });
    assert(actions@ =~= old(actions)@ + ControllerState::input_context_actions(
        input_context,
        dci,
        speed,
        port,
        endpoint,
    ));
}

impl Controller {
    /// Builds the driver state for the controller at `mmio_base` whose
    /// capability registers read `caps` and which is to use the memory that
    /// `layout` names. Fails with `Error::UnsupportedController` where the
    /// base address or the layout is not valid or the controller reports no
    /// port.
    pub fn new(mmio_base: u64, caps: CapabilityRegisters, layout: DmaLayout) -> (r: Result<
        Self,
        Error,
    >)
        ensures
            r is Ok <==> valid_mmio_base(mmio_base) && layout.valid() && caps.spec_max_ports() >= 1,
            r matches Ok(xhc) ==> xhc@.wf() && xhc@ == initial_state(
                spec_block_addresses(mmio_base, caps),
                caps.spec_max_ports(),
                if caps.spec_max_slots() <= DEVICE_SLOTS {
                    caps.spec_max_slots()
                } else {
                    DEVICE_SLOTS
                },
                layout,
            ),
            r matches Err(e) ==> e == Error::UnsupportedController,
    {
        let layout_ok = region_ok(layout.device_contexts) && region_ok(layout.command_ring)
            && region_ok(layout.event_ring) && region_ok(layout.event_ring_table) && region_ok(
            layout.input_contexts,
        ) && region_ok(layout.transfer_rings) && region_ok(layout.buffers);
        if !layout_ok || caps.max_ports() == 0 {
            return Err(Error::UnsupportedController);
        }
        let blocks = match RegisterBlocks::new(mmio_base, caps) {
            Some(blocks) => blocks,
            None => {
                return Err(Error::UnsupportedController);
            },
        };
        let command_ring = match CommandRing::new(layout.command_ring, COMMAND_RING_SIZE) {
            Some(ring) => ring,
            None => {
                return Err(Error::UnsupportedController);
            },
        };
        let event_ring = match EventRing::new(EVENT_RING_SIZE) {
            Some(ring) => ring,
            None => {
                return Err(Error::UnsupportedController);
            },
        };
        let max_slots = if caps.max_slots() <= DEVICE_SLOTS {
            caps.max_slots()
        } else {
            DEVICE_SLOTS
        };
        let xhc = Controller {
            lifecycle: Lifecycle::Created,
            blocks,
            layout,
            max_ports: caps.max_ports(),
            max_slots,
            phases: vec![ConfigPhase::NotConnected; PORT_NUMBERS],
            addressing_port: 0,
            slot_ports: vec![0u8; SLOT_NUMBERS],
            slot_stages: vec![0u8; SLOT_NUMBERS],
            control_rings: vec![RingPosition { index: 0, cycle: true }; SLOT_NUMBERS],
            interrupt_rings: vec![RingPosition { index: 0, cycle: true }; SLOT_NUMBERS],
            endpoints: vec![
                MouseEndpoint {
                    configuration: 0,
                    interface: 0,
                    endpoint: 0,
                    max_packet_size: 0,
                    interval: 0,
                };
                SLOT_NUMBERS
            ],
            command_ring,
            event_ring,
        };
        proof {
            let model = initial_state(
                spec_block_addresses(mmio_base, caps),
                caps.spec_max_ports(),
                max_slots,
                layout,
            );
            assert(xhc@.phases =~= model.phases);
            assert(xhc@.slot_ports =~= model.slot_ports);
            assert(xhc@.slot_stages =~= model.slot_stages);
            assert(xhc@.control_rings =~= model.control_rings);
            assert(xhc@.interrupt_rings =~= model.interrupt_rings);
            assert(xhc@.endpoints =~= model.endpoints);
            assert(xhc@.commands.types =~= model.commands.types);
            assert(xhc@.commands == model.commands);
            assert(xhc@ == model);
        }
        Ok(xhc)
    }

    /// The stage of the controller's life.
    pub fn lifecycle(&self) -> (stage: Lifecycle)
        ensures
            stage == self@.lifecycle,
    {
        self.lifecycle
    }

    /// Whether the controller has been reset and programmed.
    pub fn is_initialized(&self) -> (initialized: bool)
        ensures
            initialized == (self@.lifecycle == Lifecycle::Initialized || self@.lifecycle
                == Lifecycle::Running),
    {
        match self.lifecycle {
            Lifecycle::Initialized | Lifecycle::Running => true,
            _ => false,
        }
    }

    /// Number of root hub ports; there is always at least one.
    pub fn max_ports(&self) -> (ports: u8)
        requires
            self@.wf(),
        ensures
            ports == self@.max_ports,
            ports >= 1,
    {
        self.max_ports
    }

    /// The register blocks, for the addresses of the registers to read.
    pub fn registers(&self) -> (blocks: &RegisterBlocks)
        ensures
            blocks@ == self@.blocks,
    {
        &self.blocks
    }

    /// The port `number`, counted from 1, whose status register reads
    /// `portsc`.
    pub fn port_at(&self, number: u8, portsc: u32) -> (port: Port)
        ensures
            port == (Port { number, portsc }),
    {
        Port { number, portsc }
    }

    /// The phase of port `number`.
    pub fn port_phase(&self, number: u8) -> (phase: ConfigPhase)
        requires
            self@.wf(),
        ensures
            phase == self@.phases[number as int],
    {
        self.phases[number as usize]
    }

    /// The cursor into the primary event ring.
    pub fn primary_event_ring(&self) -> (ring: &EventRing)
        ensures
            ring@ == self@.events,
    {
        &self.event_ring
    }

    /// Address of the block under the event ring's cursor, which the
    /// caller reads and passes to `process_event`.
    pub fn dequeue_pointer(&self) -> (address: u64)
        requires
            self@.wf(),
        ensures
            address == self@.dequeue_pointer(),
    {
        let offset = self.event_ring.dequeue_offset();
        self.layout.event_ring + offset
    }

    fn write_dword(address: u64, value: u32) -> (action: Action)
        ensures
            action == ControllerState::write_dword(address as int, value),
    {
        Action::Write(MmioWrite { address, value: value as u64, width: Width::Dword })
    }

    fn write_qword(address: u64, value: u64) -> (action: Action)
        ensures
            action == ControllerState::write_qword(address as int, value),
    {
        Action::Write(MmioWrite { address, value, width: Width::Qword })
    }

    /// Address of the data buffer of `slot`, whose contents the caller
    /// reads and passes to `process_event` with an event of that slot.
    pub fn buffer_address(&self, slot: u8) -> (address: u64)
        requires
            self@.wf(),
        ensures
            address == self@.layout.buffer(slot),
    {
        self.layout.buffer_address(slot)
    }

    fn ring_doorbell(&self, slot: u8, dci: u8) -> (action: Action)
        requires
            self@.wf(),
        ensures
            action == self@.ring_doorbell(slot, dci),
    {
        Action::Write(
            MmioWrite {
                address: self.blocks.doorbell_at(slot),
                value: dci as u64,
                width: Width::Dword,
            },
        )
    }

    fn control_transfer(&mut self, slot: u8, setup: SetupData, actions: &mut Vec<Action>)
        requires
            old(self)@.wf(),
        ensures
            final(self)@ == old(self)@.control_transfer(slot, setup).state,
            final(actions)@ == old(actions)@ + old(self)@.control_transfer(slot, setup).actions,
    {
        let base = self.layout.control_ring_address(slot);
        let trbs = blocks_of(setup, self.layout.buffer_address(slot));
        let start = self.control_rings[slot as usize];
        let mut position = start;
        let mut i: usize = 0;
        while i < trbs.len()
            invariant
                i <= trbs.len(),
                position.wf(),
                base + SLOT_RINGS_SIZE <= u64::MAX,
                actions@ == old(actions)@ + ring_push_all(base, start, trbs@.subrange(0, i as int)).0,
                position == ring_push_all(base, start, trbs@.subrange(0, i as int)).1,
            decreases trbs.len() - i,
        {
            let ghost before = actions@;
            position = push_on_ring(base, position, trbs[i], actions);
            proof {
                let done = trbs@.subrange(0, i + 1);
                assert(done.drop_last() =~= trbs@.subrange(0, i as int));
                assert(done.last() == trbs@[i as int]);
                assert(actions@ =~= old(actions)@ + ring_push_all(base, start, done).0);
            }
            i = i + 1;
        }
        assert(trbs@.subrange(0, trbs.len() as int) =~= trbs@);
        self.control_rings[slot as usize] = position;
        actions.push(self.ring_doorbell(slot, DCI_CONTROL));
        assert(actions@ =~= old(actions)@ + old(self)@.control_transfer(slot, setup).actions);
    }

    fn interrupt_transfer(&mut self, slot: u8, actions: &mut Vec<Action>)
        requires
            old(self)@.wf(),
        ensures
            final(self)@ == old(self)@.interrupt_transfer(slot).state,
            final(actions)@ == old(actions)@ + old(self)@.interrupt_transfer(slot).actions,
    {
        let endpoint = self.endpoints[slot as usize];
        let base = self.layout.interrupt_ring_address(slot);
        let trb = Trb::normal(self.layout.buffer_address(slot), report_length(endpoint));
        let start = self.interrupt_rings[slot as usize];
        let position = push_on_ring(base, start, trb, actions);
        self.interrupt_rings[slot as usize] = position;
        actions.push(self.ring_doorbell(slot, dci_in(endpoint.endpoint)));
        assert(actions@ =~= old(actions)@ + old(self)@.interrupt_transfer(slot).actions);
    }

    /// Issues `trb` on the command ring and appends the actions that store
    /// it and ring the doorbell.
    fn issue_command(&mut self, trb: Trb, actions: &mut Vec<Action>)
        requires
            old(self)@.wf(),
        ensures
            final(self)@ == (ControllerState {
                commands: old(self)@.commands.pushed(trb),
                ..old(self)@
            }),
            final(self)@.commands.wf(),
            final(actions)@ == old(actions)@ + old(self)@.command_actions(trb),
    {
        let base = self.command_ring.base();
        let stores = self.command_ring.push(trb);
        let ghost wanted = old(self)@.command_actions(trb);
        let first = stores[0];
        assert(first.index * TRB_SIZE <= COMMAND_RING_SIZE * TRB_SIZE);
        actions.push(Action::StoreTrb { address: base + (first.index as u64) * TRB_SIZE, trb: first.trb });
        if stores.len() > 1 {
            let second = stores[1];
            actions.push(
                Action::StoreTrb { address: base + (second.index as u64) * TRB_SIZE, trb: second.trb },
            );
        }
        actions.push(
            Action::Write(
                MmioWrite { address: self.blocks.doorbell_at(0), value: 0, width: Width::Dword },
            ),
        );
        assert(actions@ =~= old(actions)@ + wanted);
    }

    fn reset_port(&mut self, port: u8, portsc: u32, actions: &mut Vec<Action>) -> (status: Result<
        (),
        Error,
    >)
        requires
            old(self)@.wf(),
        ensures
            final(self)@ == old(self)@.reset_port(port, portsc).state,
            final(actions)@ == old(actions)@ + old(self)@.reset_port(port, portsc).actions,
            status == old(self)@.reset_port(port, portsc).status,
    {
        let view = Port { number: port, portsc };
        if !view.is_connected() || port == 0 {
            assert(actions@ =~= old(actions)@ + Seq::<Action>::empty());
            return Ok(());
        }
        if self.addressing_port != 0 {
            self.phases[port as usize] = ConfigPhase::WaitingAddressed;
            assert(actions@ =~= old(actions)@ + Seq::<Action>::empty());
            return Ok(());
        }
        let phase = self.phases[port as usize];
        if phase != ConfigPhase::NotConnected && phase != ConfigPhase::WaitingAddressed {
            assert(actions@ =~= old(actions)@ + Seq::<Action>::empty());
            return Err(Error::InvalidPhase);
        }
        self.addressing_port = port;
        self.phases[port as usize] = ConfigPhase::ResettingPort;
        actions.push(Self::write_dword(self.blocks.portsc(port), view.reset_value()));
        assert(actions@ =~= old(actions)@ + old(self)@.reset_port(port, portsc).actions);
        Ok(())
    }

    fn enable_slot(&mut self, port: u8, portsc: u32, actions: &mut Vec<Action>)
        requires
            old(self)@.wf(),
        ensures
            final(self)@ == old(self)@.enable_slot(port, portsc).state,
            final(actions)@ == old(actions)@ + old(self)@.enable_slot(port, portsc).actions,
    {
        let view = Port { number: port, portsc };
        if view.is_enabled() && view.is_port_reset_changed() && port != 0 {
            actions.push(Self::write_dword(self.blocks.portsc(port), view.clear_reset_change_value()));
            let trb = Trb::enable_slot_command();
            self.issue_command(trb, actions);
            self.phases[port as usize] = ConfigPhase::EnablingSlot;
            assert(actions@ =~= old(actions)@ + old(self)@.enable_slot(port, portsc).actions);
        } else {
            assert(actions@ =~= old(actions)@ + Seq::<Action>::empty());
        }
    }

    fn address_device(&mut self, port: u8, slot: u8, portsc: u32, actions: &mut Vec<Action>) -> (status:
        Result<(), Error>)
        requires
            old(self)@.wf(),
        ensures
            final(self)@ == old(self)@.address_device(port, slot, portsc).state,
            final(actions)@ == old(actions)@ + old(self)@.address_device(port, slot, portsc).actions,
            status == old(self)@.address_device(port, slot, portsc).status,
    {
        if slot == 0 || slot > self.max_slots {
            assert(actions@ =~= old(actions)@ + Seq::<Action>::empty());
            return Err(Error::InvalidSlotID);
        }
        if self.slot_ports[slot as usize] != 0 {
            assert(actions@ =~= old(actions)@ + Seq::<Action>::empty());
            return Err(Error::AlreadyAllocated);
        }
        let view = Port { number: port, portsc };
        let speed = view.speed();
        let input_context = self.layout.input_context_address(slot);
        let device_context = self.layout.device_context_address(slot);
        let control_ring = self.layout.control_ring_address(slot);
        actions.push(
            Action::ClearMemory { address: device_context, length: DEVICE_CONTEXT_SIZE as u32 },
        );
        actions.push(Action::ClearMemory { address: control_ring, length: SLOT_RINGS_SIZE as u32 });
        actions.push(
            Action::StoreQword {
                address: self.layout.device_context_entry_address(slot),
                quadword: device_context,
            },
        );
        push_input_context(
            actions,
            input_context,
            DCI_CONTROL,
            speed,
            port,
            endpoint_context(ENDPOINT_TYPE_CONTROL, max_packet_size(speed), 0, control_ring, 8),
        );
        let trb = Trb::address_device_command(input_context, slot);
        self.issue_command(trb, actions);
        self.slot_ports[slot as usize] = port;
        self.slot_stages[slot as usize] = 0;
        self.control_rings[slot as usize] = RingPosition { index: 0, cycle: true };
        self.interrupt_rings[slot as usize] = RingPosition { index: 0, cycle: true };
        self.endpoints[slot as usize] = MouseEndpoint {
            configuration: 0,
            interface: 0,
            endpoint: 0,
            max_packet_size: 0,
            interval: 0,
        };
        self.phases[port as usize] = ConfigPhase::AddressingDevice;
        assert(actions@ =~= old(actions)@ + old(self)@.address_device(port, slot, portsc).actions);
        Ok(())
    }

    /// The lowest port that waits for the default address, if any.
    fn first_waiting(&self) -> (found: Option<u8>)
        requires
            self@.wf(),
        ensures
            match found {
                Some(w) => is_first_waiting(self@.phases, w as int),
                None => !exists|w: int| is_first_waiting(self@.phases, w),
            },
    {
        let mut p: usize = 0;
        while p < PORT_NUMBERS
            invariant
                p <= PORT_NUMBERS,
                self.phases@.len() == PORT_NUMBERS,
                self@.phases == self.phases@,
                forall|q: int| 0 <= q < p ==> #[trigger] self.phases@[q] != ConfigPhase::WaitingAddressed,
            decreases PORT_NUMBERS - p,
        {
            if self.phases[p] == ConfigPhase::WaitingAddressed {
                return Some(p as u8);
            }
            p = p + 1;
        }
        assert forall|w: int| !is_first_waiting(self@.phases, w) by {
            if 0 <= w < PORT_NUMBERS {
                assert(self.phases@[w] != ConfigPhase::WaitingAddressed);
            }
        }
        None
    }

    fn device_addressed(&mut self, slot: u8, ports: &Vec<u32>, actions: &mut Vec<Action>) -> (status:
        Result<(), Error>)
        requires
            old(self)@.wf(),
        ensures
            final(self)@ == old(self)@.device_addressed(slot, ports@).state,
            final(actions)@ == old(actions)@ + old(self)@.device_addressed(slot, ports@).actions,
            status == old(self)@.device_addressed(slot, ports@).status,
    {
        let port = self.slot_ports[slot as usize];
        if port == 0 {
            assert(actions@ =~= old(actions)@ + Seq::<Action>::empty());
            return Err(Error::InvalidSlotID);
        }
        if port != self.addressing_port || self.phases[port as usize]
            != ConfigPhase::AddressingDevice {
            assert(actions@ =~= old(actions)@ + Seq::<Action>::empty());
            return Err(Error::InvalidPhase);
        }
        self.addressing_port = 0;
        self.phases[port as usize] = ConfigPhase::InitializingDevice;
        let ghost released = self@;
        proof {
            assert(released.wf()) by {
                assert forall|p: int|
                    0 <= p < released.phases.len() && (
                    #[trigger] released.phases[p]).uses_default_address() implies p
                    == released.addressing_port by {
                    if p != port {
                        assert(released.phases[p] == old(self)@.phases[p]);
                    }
                }
            }
        }
        let waiting = self.first_waiting();
        match waiting {
            Some(w) => {
                proof {
                    let chosen = choose|c: int| is_first_waiting(released.phases, c);
                    lemma_first_waiting_unique(released.phases, w as int, chosen);
                }
                let _ = self.reset_port(w, portsc_at(ports, w), actions);
                proof {
                    crate::xhci::state::lemma_reset_port_keeps_wf(
                        released,
                        w,
                        portsc_of(ports@, w),
                    );
                }
            },
            None => {
                assert(actions@ =~= old(actions)@ + Seq::<Action>::empty());
            },
        }
        self.control_transfer(
            slot,
            SetupData::get_descriptor(DESCRIPTOR_DEVICE, 0, DEVICE_DESCRIPTOR_LENGTH),
            actions,
        );
        assert(actions@ =~= old(actions)@ + old(self)@.device_addressed(slot, ports@).actions);
        Ok(())
    }

    fn endpoints_configured(&mut self, slot: u8, actions: &mut Vec<Action>) -> (status: Result<
        (),
        Error,
    >)
        requires
            old(self)@.wf(),
        ensures
            final(self)@ == old(self)@.endpoints_configured(slot).state,
            final(actions)@ == old(actions)@ + old(self)@.endpoints_configured(slot).actions,
            status == old(self)@.endpoints_configured(slot).status,
    {
        let port = self.slot_ports[slot as usize];
        if port == 0 {
            assert(actions@ =~= old(actions)@ + Seq::<Action>::empty());
            return Err(Error::InvalidSlotID);
        }
        if self.phases[port as usize] != ConfigPhase::ConfiguringEndpoints {
            assert(actions@ =~= old(actions)@ + Seq::<Action>::empty());
            return Err(Error::InvalidPhase);
        }
        self.phases[port as usize] = ConfigPhase::Configured;
        proof {
            crate::xhci::state::lemma_leaving_default_address_keeps_wf(
                old(self)@,
                port,
                ConfigPhase::Configured,
            );
        }
        let interface = self.endpoints[slot as usize].interface;
        self.control_transfer(slot, SetupData::set_boot_protocol(interface), actions);
        Ok(())
    }

    fn on_command_completion(
        &mut self,
        slot: u8,
        command: u64,
        ports: &Vec<u32>,
        actions: &mut Vec<Action>,
    ) -> (status: Result<(), Error>)
        requires
            old(self)@.wf(),
        ensures
            final(self)@ == old(self)@.on_command_completion(slot, command, ports@).state,
            final(actions)@ == old(actions)@ + old(self)@.on_command_completion(
                slot,
                command,
                ports@,
            ).actions,
            status == old(self)@.on_command_completion(slot, command, ports@).status,
    {
        let issued = self.command_ring.issued_type(command);
        let issuer = match issued {
            Some(trb_type) => trb_type,
            None => 0,
        };
        if issued.is_some() && issuer == TRB_ENABLE_SLOT_COMMAND {
            let port = self.addressing_port;
            if self.phases[port as usize] != ConfigPhase::EnablingSlot {
                assert(actions@ =~= old(actions)@ + Seq::<Action>::empty());
                return Err(Error::InvalidPhase);
            }
            self.address_device(port, slot, portsc_at(ports, port), actions)
        } else if issued.is_some() && issuer == TRB_ADDRESS_DEVICE_COMMAND {
            self.device_addressed(slot, ports, actions)
        } else if issued.is_some() && issuer == TRB_CONFIGURE_ENDPOINT_COMMAND {
            self.endpoints_configured(slot, actions)
        } else {
            assert(actions@ =~= old(actions)@ + Seq::<Action>::empty());
            Err(Error::InvalidPhase)
        }
    }

    fn on_port_status_change(&mut self, port: u8, ports: &Vec<u32>, actions: &mut Vec<Action>) -> (status:
        Result<(), Error>)
        requires
            old(self)@.wf(),
        ensures
            final(self)@ == old(self)@.on_port_status_change(port, ports@).state,
            final(actions)@ == old(actions)@ + old(self)@.on_port_status_change(port, ports@).actions,
            status == old(self)@.on_port_status_change(port, ports@).status,
    {
        if port == 0 || port > self.max_ports {
            assert(actions@ =~= old(actions)@ + Seq::<Action>::empty());
            return Err(Error::IndexOutOfRange);
        }
        let phase = self.phases[port as usize];
        if phase == ConfigPhase::NotConnected {
            self.reset_port(port, portsc_at(ports, port), actions)
        } else if phase == ConfigPhase::ResettingPort {
            self.enable_slot(port, portsc_at(ports, port), actions);
            Ok(())
        } else {
            assert(actions@ =~= old(actions)@ + Seq::<Action>::empty());
            Err(Error::InvalidPhase)
        }
    }

    fn configure_endpoints(&mut self, slot: u8, port: u8, portsc: u32, actions: &mut Vec<Action>)
        requires
            old(self)@.wf(),
            port != 0,
        ensures
            final(self)@ == old(self)@.configure_endpoints(slot, port, portsc).state,
            final(actions)@ == old(actions)@ + old(self)@.configure_endpoints(
                slot,
                port,
                portsc,
            ).actions,
    {
        let endpoint = self.endpoints[slot as usize];
        let view = Port { number: port, portsc };
        let input_context = self.layout.input_context_address(slot);
        push_input_context(
            actions,
            input_context,
            dci_in(endpoint.endpoint),
            view.speed(),
            port,
            endpoint_context(
                ENDPOINT_TYPE_INTERRUPT_IN,
                endpoint.max_packet_size,
                interval_field(endpoint.interval),
                self.layout.interrupt_ring_address(slot),
                report_length(endpoint),
            ),
        );
        let trb = Trb::configure_endpoint_command(input_context, slot);
        self.issue_command(trb, actions);
        self.slot_stages[slot as usize] = INITIALIZATION_TRANSFERS;
        self.phases[port as usize] = ConfigPhase::ConfiguringEndpoints;
        assert(actions@ =~= old(actions)@ + old(self)@.configure_endpoints(
            slot,
            port,
            portsc,
        ).actions);
    }

    fn initialization_step(
        &mut self,
        slot: u8,
        port: u8,
        portsc: u32,
        data: &Vec<u8>,
        actions: &mut Vec<Action>,
    ) -> (status: Result<(), Error>)
        requires
            old(self)@.wf(),
            port != 0,
        ensures
            final(self)@ == old(self)@.initialization_step(slot, port, portsc, data@).state,
            final(actions)@ == old(actions)@ + old(self)@.initialization_step(
                slot,
                port,
                portsc,
                data@,
            ).actions,
            status == old(self)@.initialization_step(slot, port, portsc, data@).status,
    {
        let done = self.slot_stages[slot as usize];
        if done == 0 {
            self.slot_stages[slot as usize] = 1;
            self.control_transfer(
                slot,
                SetupData::get_descriptor(DESCRIPTOR_CONFIGURATION, 0, BUFFER_SIZE),
                actions,
            );
            Ok(())
        } else if done == 1 {
            match find_mouse_endpoint(data) {
                None => {
                    assert(actions@ =~= old(actions)@ + Seq::<Action>::empty());
                    Err(Error::UnknownDevice)
                },
                Some(endpoint) => {
                    self.slot_stages[slot as usize] = 2;
                    self.endpoints[slot as usize] = endpoint;
                    self.control_transfer(
                        slot,
                        SetupData::set_configuration(endpoint.configuration),
                        actions,
                    );
                    Ok(())
                },
            }
        } else {
            self.configure_endpoints(slot, port, portsc, actions);
            Ok(())
        }
    }

    fn mouse_step(&mut self, slot: u8, endpoint: u8, data: &Vec<u8>, actions: &mut Vec<Action>)
        requires
            old(self)@.wf(),
        ensures
            final(self)@ == old(self)@.mouse_step(slot, endpoint, data@).state,
            final(actions)@ == old(actions)@ + old(self)@.mouse_step(slot, endpoint, data@).actions,
    {
        if endpoint == DCI_CONTROL {
            self.interrupt_transfer(slot, actions);
        } else if endpoint == dci_in(self.endpoints[slot as usize].endpoint) {
            match report_displacement(data) {
                None => {},
                Some(displacement) => {
                    actions.push(
                        Action::MouseMoved {
                            displacement_x: displacement.0,
                            displacement_y: displacement.1,
                        },
                    );
                },
            }
            self.interrupt_transfer(slot, actions);
            assert(actions@ =~= old(actions)@ + old(self)@.mouse_step(slot, endpoint, data@).actions);
        } else {
            assert(actions@ =~= old(actions)@ + Seq::<Action>::empty());
        }
    }

    fn on_transfer(
        &mut self,
        slot: u8,
        endpoint: u8,
        code: u8,
        ports: &Vec<u32>,
        data: &Vec<u8>,
        actions: &mut Vec<Action>,
    ) -> (status: Result<(), Error>)
        requires
            old(self)@.wf(),
        ensures
            final(self)@ == old(self)@.on_transfer(slot, endpoint, code, ports@, data@).state,
            final(actions)@ == old(actions)@ + old(self)@.on_transfer(
                slot,
                endpoint,
                code,
                ports@,
                data@,
            ).actions,
            status == old(self)@.on_transfer(slot, endpoint, code, ports@, data@).status,
    {
        let port = self.slot_ports[slot as usize];
        if port == 0 {
            assert(actions@ =~= old(actions)@ + Seq::<Action>::empty());
            return Err(Error::InvalidSlotID);
        }
        if code != COMPLETION_SUCCESS && code != COMPLETION_SHORT_PACKET {
            assert(actions@ =~= old(actions)@ + Seq::<Action>::empty());
            return Err(Error::TransferFailed);
        }
        let phase = self.phases[port as usize];
        if phase == ConfigPhase::InitializingDevice {
            if endpoint == DCI_CONTROL {
                self.initialization_step(slot, port, portsc_at(ports, port), data, actions)
            } else {
                assert(actions@ =~= old(actions)@ + Seq::<Action>::empty());
                Ok(())
            }
        } else if phase == ConfigPhase::Configured {
            self.mouse_step(slot, endpoint, data, actions);
            Ok(())
        } else {
            assert(actions@ =~= old(actions)@ + Seq::<Action>::empty());
            Ok(())
        }
    }

    fn dispatch(
        &mut self,
        event: Event,
        ports: &Vec<u32>,
        data: &Vec<u8>,
        actions: &mut Vec<Action>,
    ) -> (status: Result<(), Error>)
        requires
            old(self)@.wf(),
        ensures
            final(self)@ == old(self)@.dispatch(event, ports@, data@).state,
            final(actions)@ == old(actions)@ + old(self)@.dispatch(event, ports@, data@).actions,
            status == old(self)@.dispatch(event, ports@, data@).status,
    {
        match event {
            Event::Transfer { slot, endpoint, code } => self.on_transfer(
                slot,
                endpoint,
                code,
                ports,
                data,
                actions,
            ),
            Event::CommandCompletion { slot, code, command } => self.on_command_completion(
                slot,
                command,
                ports,
                actions,
            ),
            Event::PortStatusChange { port } => self.on_port_status_change(port, ports, actions),
            Event::Unknown { trb_type } => {
                assert(actions@ =~= old(actions)@ + Seq::<Action>::empty());
                Err(Error::NotImplemented)
            },
        }
    }

    /// Takes one event from the primary event ring. `front` is the block
    /// at `dequeue_pointer`, as read; `ports` holds the status register of
    /// each port as read, port 1 first; `data` is what the buffer of the
    /// slot that `front` names holds. See `ControllerState::process_event`.
    pub fn process_event(&mut self, front: Trb, ports: &Vec<u32>, data: &Vec<u8>) -> (outcome:
        Outcome)
        requires
            old(self)@.wf(),
        ensures
            final(self)@.wf(),
            final(self)@ == old(self)@.process_event(front, ports@, data@).state,
            outcome.matches_step(old(self)@.process_event(front, ports@, data@)),
            !old(self).primary_event_ring_has_front(front) ==> final(self)@ == old(self)@
                && outcome.actions@.len() == 0,
    {
        proof {
            lemma_process_event(old(self)@, front, ports@, data@);
            lemma_dispatch_wf(old(self)@, front.spec_event(), ports@, data@);
        }
        let mut actions: Vec<Action> = Vec::new();
        if self.lifecycle != Lifecycle::Running {
            return Outcome { actions, status: Err(Error::InvalidPhase) };
        }
        if !self.event_ring.has_front(front) {
            return Outcome { actions, status: Ok(()) };
        }
        let status = self.dispatch(front.event(), ports, data, &mut actions);
        self.event_ring.pop();
        let pointer = self.dequeue_pointer();
        actions.push(Self::write_qword(self.blocks.erdp(), pointer));
        assert(actions@ =~= old(self)@.process_event(front, ports@, data@).actions);
        Outcome { actions, status }
    }

    /// Whether `front`, the block under the event ring's cursor, is an
    /// unread event.
    pub open spec fn primary_event_ring_has_front(&self, front: Trb) -> bool {
        front.spec_cycle_bit() == self@.events.cycle
    }

    /// Starts the configuration of the device at `port`, if there is one
    /// and the port is not being configured already. See
    /// `ControllerState::configure_port`.
    pub fn configure_port(&mut self, port: &Port) -> (outcome: Outcome)
        requires
            old(self)@.wf(),
        ensures
            final(self)@.wf(),
            final(self)@ == old(self)@.configure_port(port.number, port.portsc).state,
            outcome.matches_step(old(self)@.configure_port(port.number, port.portsc)),
    {
        proof {
            lemma_configure_port(old(self)@, port.number, port.portsc);
        }
        let mut actions: Vec<Action> = Vec::new();
        if self.lifecycle != Lifecycle::Running {
            return Outcome { actions, status: Err(Error::InvalidPhase) };
        }
        if port.number == 0 || port.number > self.max_ports {
            return Outcome { actions, status: Err(Error::IndexOutOfRange) };
        }
        if self.phases[port.number as usize] == ConfigPhase::NotConnected {
            let status = self.reset_port(port.number, port.portsc, &mut actions);
            assert(actions@ =~= old(self)@.configure_port(port.number, port.portsc).actions);
            Outcome { actions, status }
        } else {
            Outcome { actions, status: Ok(()) }
        }
    }

    /// Looks at every port and has each configured that reports a device.
    /// `ports` holds the status register of each port as read, port 1
    /// first. See `ControllerState::configure_connected_ports`.
    pub fn configure_connected_ports(&mut self, ports: &Vec<u32>) -> (outcome: Outcome)
        requires
            old(self)@.wf(),
        ensures
            final(self)@.wf(),
            final(self)@ == old(self)@.configure_connected_ports(ports@, 1).state,
            outcome.matches_step(old(self)@.configure_connected_ports(ports@, 1)),
    {
        let mut actions: Vec<Action> = Vec::new();
        let mut status: Result<(), Error> = Ok(());
        let last = self.max_ports as u16;
        let ghost start = old(self)@;
        let mut i: u16 = 1;
        while i <= last
            invariant
                self@.wf(),
                last == self@.max_ports,
                1 <= i <= last + 1,
                ({
                    let rest = self@.configure_connected_ports(ports@, i as int);
                    let whole = start.configure_connected_ports(ports@, 1);
                    &&& whole.state == rest.state
                    &&& whole.actions == actions@ + rest.actions
                    &&& whole.status == if rest.status is Err {
                        rest.status
                    } else {
                        status
                    }
                }),
            decreases last + 1 - i,
        {
            let number = i as u8;
            let port = self.port_at(number, portsc_at(ports, number));
            let ghost before = self@;
            let ghost done = actions@;
            proof {
                lemma_configure_port(before, number, port.portsc);
            }
            if port.is_connected() {
                let one = self.configure_port(&port);
                let mut more = one.actions;
                actions.append(&mut more);
                if one.status.is_err() {
                    status = one.status;
                }
            }
            proof {
                let first = if portsc_connected(port.portsc) {
                    before.configure_port(number, port.portsc)
                } else {
                    before.stay(Ok(()))
                };
                let rest_after = first.state.configure_connected_ports(ports@, i + 1);
                assert(actions@ =~= done + first.actions);
                assert(done + (first.actions + rest_after.actions) =~= actions@ + rest_after.actions);
            }
            i = i + 1;
        }
        assert(actions@ =~= start.configure_connected_ports(ports@, 1).actions);
        Outcome { actions, status }
    }

    /// Takes the initialization one step further, given what the command
    /// and status registers read now; to be called until `is_initialized`.
    /// See `ControllerState::initialize`.
    pub fn initialize(&mut self, usbcmd: u32, usbsts: u32) -> (outcome: Outcome)
        requires
            old(self)@.wf(),
        ensures
            final(self)@.wf(),
            final(self)@ == old(self)@.initialize(usbcmd, usbsts).state,
            outcome.matches_step(old(self)@.initialize(usbcmd, usbsts)),
    {
        let mut actions: Vec<Action> = Vec::new();
        let command_register = self.blocks.usbcmd();
        match self.lifecycle {
            Lifecycle::Created => {
                actions.push(Self::write_dword(command_register, halt_command(usbcmd)));
                self.lifecycle = Lifecycle::Halting;
                assert(actions@ =~= old(self)@.initialize(usbcmd, usbsts).actions);
                Outcome { actions, status: Ok(()) }
            },
            Lifecycle::Halting => {
                if is_halted(usbsts) {
                    actions.push(Self::write_dword(command_register, reset_command(usbcmd)));
                    self.lifecycle = Lifecycle::Resetting;
                }
                assert(actions@ =~= old(self)@.initialize(usbcmd, usbsts).actions);
                Outcome { actions, status: Ok(()) }
            },
            Lifecycle::Resetting => {
                if !is_resetting(usbcmd) && !is_not_ready(usbsts) {
                    let entry = Trb {
                        parameter_low: (self.layout.event_ring % 0x1_0000_0000) as u32,
                        parameter_high: (self.layout.event_ring / 0x1_0000_0000) as u32,
                        status: EVENT_RING_SIZE as u32,
                        control: 0,
                    };
                    actions.push(Self::write_dword(self.blocks.config(), self.max_slots as u32));
                    actions.push(Self::write_qword(self.blocks.dcbaap(), self.layout.device_contexts));
                    actions.push(Self::write_qword(self.blocks.crcr(), self.layout.command_ring + 1));
                    actions.push(Action::StoreTrb { address: self.layout.event_ring_table, trb: entry });
                    actions.push(Self::write_dword(self.blocks.erstsz(), 1));
                    actions.push(Self::write_qword(self.blocks.erdp(), self.layout.event_ring));
                    actions.push(Self::write_qword(self.blocks.erstba(), self.layout.event_ring_table));
                    actions.push(Self::write_dword(self.blocks.iman(), IMAN_PENDING_AND_ENABLE));
                    actions.push(
                        Self::write_dword(command_register, interrupt_enable_command(usbcmd)),
                    );
                    self.lifecycle = Lifecycle::Initialized;
                }
                assert(actions@ =~= old(self)@.initialize(usbcmd, usbsts).actions);
                Outcome { actions, status: Ok(()) }
            },
            Lifecycle::Initialized | Lifecycle::Running => Outcome {
                actions,
                status: Err(Error::InvalidPhase),
            },
        }
    }

    /// Sets an initialized controller running, given what the command
    /// register reads now. See `ControllerState::run`.
    pub fn run(&mut self, usbcmd: u32) -> (outcome: Outcome)
        requires
            old(self)@.wf(),
        ensures
            final(self)@.wf(),
            final(self)@ == old(self)@.run(usbcmd).state,
            outcome.matches_step(old(self)@.run(usbcmd)),
    {
        let mut actions: Vec<Action> = Vec::new();
        if self.lifecycle == Lifecycle::Initialized {
            actions.push(Self::write_dword(self.blocks.usbcmd(), run_command(usbcmd)));
            self.lifecycle = Lifecycle::Running;
            assert(actions@ =~= old(self)@.run(usbcmd).actions);
            Outcome { actions, status: Ok(()) }
        } else {
            Outcome { actions, status: Err(Error::InvalidPhase) }
        }
    }
}

} // verus!
