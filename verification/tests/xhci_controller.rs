use mikan_os::error::{Error, ErrorKind};
use mikan_os::xhci::port::{max_packet_size, ConfigPhase, Port, PortState};
use mikan_os::xhci::registers::{
    halt_command, interrupt_enable_command, is_halted, is_not_ready, is_resetting, reset_command,
    run_command, CapabilityRegisters, MmioWrite, RegisterBlocks, Width,
};
use mikan_os::xhci::ring::{CommandRing, EventRing, RingStore};
use mikan_os::xhci::state::{Action, DmaLayout, Lifecycle};
use mikan_os::xhci::trb::{Event, Trb};
use mikan_os::xhci::Controller;

const BASE: u64 = 0xfebf_0000;
const OPERATIONAL: u64 = BASE + 0x20;
const RUNTIME: u64 = BASE + 0x1000;
const DOORBELL: u64 = BASE + 0x2000;

fn caps() -> CapabilityRegisters {
    CapabilityRegisters {
        caplength: 0x0100_0020,
        hcsparams1: 0x0400_0820,
        dboff: 0x0000_2003,
        rtsoff: 0x0000_101f,
    }
}

fn layout() -> DmaLayout {
    DmaLayout {
        device_contexts: 0x1000,
        command_ring: 0x2000,
        event_ring: 0x3000,
        event_ring_table: 0x4000,
        input_contexts: 0x1_0000,
        transfer_rings: 0x2_0000,
        buffers: 0x4_0000,
    }
}

fn store(address: u64, dword: u32) -> Action {
    Action::StoreDword { address, dword }
}

fn block(address: u64, parameter: u64, status: u32, control: u32) -> Action {
    Action::StoreTrb {
        address,
        trb: Trb {
            parameter_low: parameter as u32,
            parameter_high: (parameter >> 32) as u32,
            status,
            control,
        },
    }
}

/// The configuration of a boot-protocol mouse: the configuration itself, one
/// interface, its HID descriptor and its interrupt endpoint.
fn mouse_configuration() -> Vec<u8> {
    vec![
        9, 2, 34, 0, 1, 1, 0, 0xa0, 50, //
        9, 4, 0, 0, 1, 3, 1, 2, 0, //
        9, 0x21, 0x11, 0x01, 0, 1, 0x22, 52, 0, //
        7, 5, 0x81, 3, 8, 0, 10,
    ]
}

fn dword(address: u64, value: u32) -> Action {
    Action::Write(MmioWrite { address, value: value as u64, width: Width::Dword })
}

fn qword(address: u64, value: u64) -> Action {
    Action::Write(MmioWrite { address, value, width: Width::Qword })
}

fn running() -> Controller {
    let mut xhc = Controller::new(BASE, caps(), layout()).unwrap();
    let _ = xhc.initialize(0, 1);
    let _ = xhc.initialize(0, 1);
    let _ = xhc.initialize(0, 1);
    assert!(xhc.is_initialized());
    assert_eq!(xhc.run(0).status, Ok(()));
    xhc
}

fn port_event(port: u8) -> Trb {
    Trb { parameter_low: (port as u32) << 24, parameter_high: 0, status: 0x0100_0000, control: (34 << 10) | 1 }
}

fn command_event(command: u64, slot: u8) -> Trb {
    Trb {
        parameter_low: command as u32,
        parameter_high: (command >> 32) as u32,
        status: 0x0100_0000,
        control: ((slot as u32) << 24) | (33 << 10) | 1,
    }
}

fn transfer_event(slot: u8, endpoint: u8, code: u8) -> Trb {
    Trb {
        parameter_low: 0,
        parameter_high: 0,
        status: (code as u32) << 24,
        control: ((slot as u32) << 24) | ((endpoint as u32) << 16) | (32 << 10) | 1,
    }
}

#[test]
fn capability_registers_are_decoded() {
    let c = caps();
    assert_eq!(c.cap_length(), 0x20);
    assert_eq!(c.max_slots(), 0x20);
    assert_eq!(c.max_ports(), 4);
    assert_eq!(c.doorbell_offset(), 0x2000);
    assert_eq!(c.runtime_offset(), 0x1000);
}

#[test]
fn registers_lie_at_their_offsets() {
    let blocks = RegisterBlocks::new(BASE, caps()).unwrap();
    assert_eq!(blocks.usbcmd(), OPERATIONAL);
    assert_eq!(blocks.usbsts(), OPERATIONAL + 0x04);
    assert_eq!(blocks.crcr(), OPERATIONAL + 0x18);
    assert_eq!(blocks.dcbaap(), OPERATIONAL + 0x30);
    assert_eq!(blocks.config(), OPERATIONAL + 0x38);
    assert_eq!(blocks.portsc(1), OPERATIONAL + 0x400);
    assert_eq!(blocks.portsc(4), OPERATIONAL + 0x430);
    assert_eq!(blocks.iman(), RUNTIME + 0x20);
    assert_eq!(blocks.erstsz(), RUNTIME + 0x28);
    assert_eq!(blocks.erstba(), RUNTIME + 0x30);
    assert_eq!(blocks.erdp(), RUNTIME + 0x38);
    assert_eq!(blocks.doorbell_at(0), DOORBELL);
    assert_eq!(blocks.doorbell_at(3), DOORBELL + 12);
    assert!(RegisterBlocks::new(BASE + 8, caps()).is_none());
    assert!(RegisterBlocks::new(u64::MAX - 0xf, caps()).is_none());
}

#[test]
fn command_register_values_touch_their_bits_only() {
    assert_eq!(halt_command(0xffff_ffff), 0xffff_fbf2);
    assert_eq!(halt_command(0x0000_0405), 0);
    assert_eq!(reset_command(0x10), 0x12);
    assert_eq!(interrupt_enable_command(0x1), 0x5);
    assert_eq!(run_command(0x4), 0x5);
    assert!(is_halted(0x1));
    assert!(!is_halted(0x800));
    assert!(is_not_ready(0x800));
    assert!(!is_not_ready(0x1));
    assert!(is_resetting(0x2));
    assert!(!is_resetting(0x5));
}

#[test]
fn controller_needs_a_port_and_valid_addresses() {
    assert!(Controller::new(BASE, caps(), layout()).is_ok());
    let mut none = caps();
    none.hcsparams1 = 0x0000_0820;
    assert_eq!(Controller::new(BASE, none, layout()).err(), Some(Error::UnsupportedController));
    assert_eq!(Controller::new(BASE + 4, caps(), layout()).err(), Some(Error::UnsupportedController));
    let mut unaligned = layout();
    unaligned.event_ring = 0x3010;
    assert_eq!(Controller::new(BASE, caps(), unaligned).err(), Some(Error::UnsupportedController));
    let mut far = layout();
    far.input_contexts = 0xffff_ffff_ffff_ffc0;
    assert_eq!(Controller::new(BASE, caps(), far).err(), Some(Error::UnsupportedController));
    let mut odd = layout();
    odd.buffers = 0x4_0020;
    assert_eq!(Controller::new(BASE, caps(), odd).err(), Some(Error::UnsupportedController));
    let mut one = caps();
    one.hcsparams1 = 0x0100_0002;
    let xhc = Controller::new(BASE, one, layout()).unwrap();
    assert_eq!(xhc.max_ports(), 1);
}

#[test]
fn initialization_halts_resets_and_programs() {
    let mut xhc = Controller::new(BASE, caps(), layout()).unwrap();
    assert_eq!(xhc.lifecycle(), Lifecycle::Created);
    assert!(xhc.max_ports() >= 1);
    assert_eq!(xhc.max_ports(), 4);

    let halt = xhc.initialize(0x0000_0405, 0);
    assert_eq!(halt.status, Ok(()));
    assert_eq!(halt.actions, vec![dword(OPERATIONAL, 0)]);
    assert_eq!(xhc.lifecycle(), Lifecycle::Halting);

    let waiting = xhc.initialize(0, 0);
    assert_eq!(waiting.actions, Vec::new());
    assert_eq!(xhc.lifecycle(), Lifecycle::Halting);

    let reset = xhc.initialize(0, 1);
    assert_eq!(reset.actions, vec![dword(OPERATIONAL, 2)]);
    assert_eq!(xhc.lifecycle(), Lifecycle::Resetting);

    assert_eq!(xhc.initialize(2, 1).actions, Vec::new());
    assert_eq!(xhc.initialize(0, 0x801).actions, Vec::new());
    assert_eq!(xhc.lifecycle(), Lifecycle::Resetting);
    assert!(!xhc.is_initialized());
    assert_eq!(xhc.run(0).status, Err(Error::InvalidPhase));

    let program = xhc.initialize(0, 1);
    assert_eq!(program.status, Ok(()));
    assert_eq!(
        program.actions,
        vec![
            dword(OPERATIONAL + 0x38, 8),
            qword(OPERATIONAL + 0x30, 0x1000),
            qword(OPERATIONAL + 0x18, 0x2001),
            Action::StoreTrb {
                address: 0x4000,
                trb: Trb { parameter_low: 0x3000, parameter_high: 0, status: 32, control: 0 },
            },
            dword(RUNTIME + 0x28, 1),
            qword(RUNTIME + 0x38, 0x3000),
            qword(RUNTIME + 0x30, 0x4000),
            dword(RUNTIME + 0x20, 3),
            dword(OPERATIONAL, 4),
        ]
    );
    assert_eq!(xhc.lifecycle(), Lifecycle::Initialized);
    assert!(xhc.is_initialized());

    let again = xhc.initialize(0, 1);
    assert_eq!(again.status, Err(Error::InvalidPhase));
    assert_eq!(again.actions, Vec::new());
    assert_eq!(xhc.lifecycle(), Lifecycle::Initialized);

    let run = xhc.run(4);
    assert_eq!(run.status, Ok(()));
    assert_eq!(run.actions, vec![dword(OPERATIONAL, 5)]);
    assert_eq!(xhc.lifecycle(), Lifecycle::Running);
    assert_eq!(xhc.run(5).status, Err(Error::InvalidPhase));
    assert_eq!(xhc.initialize(5, 0).status, Err(Error::InvalidPhase));
    assert_eq!(xhc.lifecycle(), Lifecycle::Running);
}

#[test]
fn ports_are_not_configured_before_the_controller_runs() {
    let mut xhc = Controller::new(BASE, caps(), layout()).unwrap();
    let port = xhc.port_at(1, 0x203);
    let outcome = xhc.configure_port(&port);
    assert_eq!(outcome.status, Err(Error::InvalidPhase));
    assert_eq!(outcome.actions, Vec::new());
    assert_eq!(xhc.port_phase(1), ConfigPhase::NotConnected);
    let event = xhc.process_event(port_event(1), &vec![0x203], &Vec::new());
    assert_eq!(event.status, Err(Error::InvalidPhase));
    assert_eq!(xhc.primary_event_ring().read_index(), 0);
}

#[test]
fn port_status_is_decoded() {
    let port = Port { number: 2, portsc: 0x0020_0e03 };
    assert_eq!(port.number(), 2);
    assert!(port.is_connected());
    assert!(port.is_enabled());
    assert!(port.is_port_reset_changed());
    assert_eq!(port.speed(), 3);
    assert_eq!(port.reset_value(), 0x0002_0210);
    assert_eq!(port.clear_reset_change_value(), 0x0020_0200);
    let idle = Port { number: 1, portsc: 0x0000_02a0 };
    assert!(!idle.is_connected());
    assert!(!idle.is_enabled());
    assert!(!idle.is_port_reset_changed());
    assert_eq!(Port { number: 1, portsc: 0xffff_ffff }.reset_value(), 0x0e02_c3f0);
    assert_eq!(max_packet_size(4), 512);
    assert_eq!(max_packet_size(3), 64);
    assert_eq!(max_packet_size(2), 8);
    assert_eq!(max_packet_size(0), 8);
    assert_eq!(ConfigPhase::NotConnected.port_state(), PortState::Disconnected);
    assert_eq!(ConfigPhase::ResettingPort.port_state(), PortState::Connecting);
    assert_eq!(ConfigPhase::WaitingAddressed.port_state(), PortState::Connecting);
    assert_eq!(ConfigPhase::AddressingDevice.port_state(), PortState::Addressing);
    assert_eq!(ConfigPhase::Configured.port_state(), PortState::Configured);
}

#[test]
fn enumeration_skips_ports_without_a_device() {
    let mut xhc = running();
    let ports = vec![0x0000_02a0, 0x0000_0e03, 0x0000_1203, 0x0000_0000];
    let outcome = xhc.configure_connected_ports(&ports);
    assert_eq!(outcome.status, Ok(()));
    assert_eq!(outcome.actions, vec![dword(OPERATIONAL + 0x410, 0x0002_0210)]);
    assert_eq!(xhc.port_phase(1), ConfigPhase::NotConnected);
    assert_eq!(xhc.port_phase(2), ConfigPhase::ResettingPort);
    assert_eq!(xhc.port_phase(3), ConfigPhase::WaitingAddressed);
    assert_eq!(xhc.port_phase(4), ConfigPhase::NotConnected);
}

#[test]
fn configuring_a_port_without_a_device_does_nothing() {
    let mut xhc = running();
    let port = xhc.port_at(1, 0x0000_02a0);
    assert!(!port.is_connected());
    let outcome = xhc.configure_port(&port);
    assert_eq!(outcome.status, Ok(()));
    assert_eq!(outcome.actions, Vec::new());
    assert_eq!(xhc.port_phase(1), ConfigPhase::NotConnected);
    let beyond = xhc.port_at(5, 0x203);
    assert_eq!(xhc.configure_port(&beyond).status, Err(Error::IndexOutOfRange));
    let zero = xhc.port_at(0, 0x203);
    assert_eq!(xhc.configure_port(&zero).status, Err(Error::IndexOutOfRange));
}

#[test]
fn event_without_a_matching_cycle_bit_changes_nothing() {
    let mut xhc = running();
    let ports = vec![0x0000_0e03, 0, 0, 0];
    let _ = xhc.configure_connected_ports(&ports);
    let mut stale = port_event(1);
    stale.control &= !1;
    assert!(!xhc.primary_event_ring().has_front(stale));
    let outcome = xhc.process_event(stale, &vec![0x0020_0e03, 0, 0, 0], &Vec::new());
    assert_eq!(outcome.status, Ok(()));
    assert_eq!(outcome.actions, Vec::new());
    assert_eq!(xhc.primary_event_ring().read_index(), 0);
    assert!(xhc.primary_event_ring().cycle_bit());
    assert_eq!(xhc.dequeue_pointer(), 0x3000);
    assert_eq!(xhc.port_phase(1), ConfigPhase::ResettingPort);
}

#[test]
fn device_is_configured_event_by_event() {
    let mut xhc = running();
    let attached = vec![0x0000_02a0, 0x0000_0e03, 0x0000_1203, 0];
    let _ = xhc.configure_connected_ports(&attached);
    let none: Vec<u8> = Vec::new();
    assert_eq!(xhc.buffer_address(1), 0x4_0200);

    // The reset of port 2 has ended.
    let after_reset = vec![0x0000_02a0, 0x0020_0e03, 0x0000_1203, 0];
    let front = port_event(2);
    assert!(xhc.primary_event_ring().has_front(front));
    let enabled = xhc.process_event(front, &after_reset, &none);
    assert_eq!(enabled.status, Ok(()));
    assert_eq!(
        enabled.actions,
        vec![
            dword(OPERATIONAL + 0x410, 0x0020_0200),
            block(0x2000, 0, 0, 0x2401),
            dword(DOORBELL, 0),
            qword(RUNTIME + 0x38, 0x3010),
        ]
    );
    assert_eq!(xhc.port_phase(2), ConfigPhase::EnablingSlot);
    assert_eq!(xhc.primary_event_ring().read_index(), 1);

    // The controller hands out slot 1.
    let addressed = xhc.process_event(command_event(0x2000, 1), &after_reset, &none);
    assert_eq!(addressed.status, Ok(()));
    assert_eq!(
        addressed.actions,
        vec![
            Action::ClearMemory { address: 0x1c00, length: 0x400 },
            Action::ClearMemory { address: 0x2_0400, length: 0x400 },
            Action::StoreQword { address: 0x1008, quadword: 0x1c00 },
            Action::ClearMemory { address: 0x1_0440, length: 0x440 },
            store(0x1_0444, 0x0000_0003),
            store(0x1_0460, 0x0830_0000),
            store(0x1_0464, 0x0002_0000),
            store(0x1_0480, 0x0000_0000),
            store(0x1_0484, 0x0040_0026),
            store(0x1_0488, 0x0002_0401),
            store(0x1_048c, 0x0000_0000),
            store(0x1_0490, 0x0000_0008),
            block(0x2010, 0x1_0440, 0, 0x0100_2c01),
            dword(DOORBELL, 0),
            qword(RUNTIME + 0x38, 0x3020),
        ]
    );
    assert_eq!(xhc.port_phase(2), ConfigPhase::AddressingDevice);

    // The device has its address: port 3, which waited, is reset, and the
    // device descriptor is asked for.
    let initializing = xhc.process_event(command_event(0x2010, 1), &after_reset, &none);
    assert_eq!(initializing.status, Ok(()));
    assert_eq!(
        initializing.actions,
        vec![
            dword(OPERATIONAL + 0x420, 0x0002_0210),
            block(0x2_0400, 0x0012_0000_0100_0680, 8, 0x0003_0841),
            block(0x2_0410, 0x4_0200, 18, 0x0001_0c01),
            block(0x2_0420, 0, 0, 0x0000_1021),
            dword(DOORBELL + 4, 1),
            qword(RUNTIME + 0x38, 0x3030),
        ]
    );
    assert_eq!(xhc.port_phase(2), ConfigPhase::InitializingDevice);
    assert_eq!(xhc.port_phase(3), ConfigPhase::ResettingPort);

    // The device descriptor has arrived: the configuration is asked for.
    let second = xhc.process_event(transfer_event(1, 1, 1), &after_reset, &vec![0u8; 18]);
    assert_eq!(second.status, Ok(()));
    assert_eq!(
        second.actions,
        vec![
            block(0x2_0430, 0x0200_0000_0200_0680, 8, 0x0003_0841),
            block(0x2_0440, 0x4_0200, 0x200, 0x0001_0c01),
            block(0x2_0450, 0, 0, 0x0000_1021),
            dword(DOORBELL + 4, 1),
            qword(RUNTIME + 0x38, 0x3040),
        ]
    );

    // The configuration holds a mouse: it is selected.
    let third = xhc.process_event(transfer_event(1, 1, 13), &after_reset, &mouse_configuration());
    assert_eq!(third.status, Ok(()));
    assert_eq!(
        third.actions,
        vec![
            block(0x2_0460, 0x0000_0000_0001_0900, 8, 0x0000_0841),
            block(0x2_0470, 0, 0, 0x0001_1021),
            dword(DOORBELL + 4, 1),
            qword(RUNTIME + 0x38, 0x3050),
        ]
    );

    // The configuration is selected: the mouse endpoint is set up.
    let endpoints = xhc.process_event(transfer_event(1, 1, 1), &after_reset, &none);
    assert_eq!(endpoints.status, Ok(()));
    assert_eq!(
        endpoints.actions,
        vec![
            Action::ClearMemory { address: 0x1_0440, length: 0x440 },
            store(0x1_0444, 0x0000_0009),
            store(0x1_0460, 0x1830_0000),
            store(0x1_0464, 0x0002_0000),
            store(0x1_04c0, 0x0009_0000),
            store(0x1_04c4, 0x0008_003e),
            store(0x1_04c8, 0x0002_0601),
            store(0x1_04cc, 0x0000_0000),
            store(0x1_04d0, 0x0000_0008),
            block(0x2020, 0x1_0440, 0, 0x0100_3001),
            dword(DOORBELL, 0),
            qword(RUNTIME + 0x38, 0x3060),
        ]
    );
    assert_eq!(xhc.port_phase(2), ConfigPhase::ConfiguringEndpoints);

    // The endpoint is set up: the boot protocol is selected.
    let configured = xhc.process_event(command_event(0x2020, 1), &after_reset, &none);
    assert_eq!(configured.status, Ok(()));
    assert_eq!(
        configured.actions,
        vec![
            block(0x2_0480, 0x0000_0000_0000_0b21, 8, 0x0000_0841),
            block(0x2_0490, 0, 0, 0x0001_1021),
            dword(DOORBELL + 4, 1),
            qword(RUNTIME + 0x38, 0x3070),
        ]
    );
    assert_eq!(xhc.port_phase(2), ConfigPhase::Configured);

    // The boot protocol is selected: the first report is asked for.
    let asked = xhc.process_event(transfer_event(1, 1, 1), &after_reset, &none);
    assert_eq!(asked.status, Ok(()));
    assert_eq!(
        asked.actions,
        vec![
            block(0x2_0600, 0x4_0200, 8, 0x0000_0425),
            dword(DOORBELL + 4, 3),
            qword(RUNTIME + 0x38, 0x3080),
        ]
    );

    // The mouse reports a move.
    let report = xhc.process_event(transfer_event(1, 3, 13), &after_reset, &vec![0x01, 0x05, 0xfb]);
    assert_eq!(report.status, Ok(()));
    assert_eq!(
        report.actions,
        vec![
            Action::MouseMoved { displacement_x: 5, displacement_y: -5 },
            block(0x2_0610, 0x4_0200, 8, 0x0000_0425),
            dword(DOORBELL + 4, 3),
            qword(RUNTIME + 0x38, 0x3090),
        ]
    );
    assert_eq!(xhc.primary_event_ring().read_index(), 9);

    // A report that is too short tells the observer nothing.
    let short = xhc.process_event(transfer_event(1, 3, 13), &after_reset, &vec![0x01]);
    assert_eq!(
        short.actions,
        vec![
            block(0x2_0620, 0x4_0200, 8, 0x0000_0425),
            dword(DOORBELL + 4, 3),
            qword(RUNTIME + 0x38, 0x30a0),
        ]
    );
    // A transfer on an endpoint that the driver does not use is passed over.
    let other = xhc.process_event(transfer_event(1, 5, 1), &after_reset, &none);
    assert_eq!(other.status, Ok(()));
    assert_eq!(other.actions, vec![qword(RUNTIME + 0x38, 0x30b0)]);
}

fn configured_on_port_two() -> Controller {
    let mut xhc = running();
    let ports = vec![0, 0x0020_0e03, 0, 0];
    let _ = xhc.configure_connected_ports(&ports);
    let configuration = mouse_configuration();
    for event in [
        port_event(2),
        command_event(0x2000, 1),
        command_event(0x2010, 1),
        transfer_event(1, 1, 1),
        transfer_event(1, 1, 1),
        transfer_event(1, 1, 1),
        command_event(0x2020, 1),
        transfer_event(1, 1, 1),
    ] {
        assert_eq!(xhc.process_event(event, &ports, &configuration).status, Ok(()));
    }
    assert_eq!(xhc.port_phase(2), ConfigPhase::Configured);
    xhc
}

#[test]
fn malformed_events_are_classified_and_passed_over() {
    let mut xhc = configured_on_port_two();
    let ports = vec![0, 0x0000_0e03, 0, 0];
    let start = xhc.primary_event_ring().read_index();

    let cases: Vec<(Trb, Error)> = vec![
        (transfer_event(5, 1, 1), Error::InvalidSlotID),
        (transfer_event(0, 1, 1), Error::InvalidSlotID),
        (transfer_event(1, 3, 4), Error::TransferFailed),
        (port_event(9), Error::IndexOutOfRange),
        (port_event(0), Error::IndexOutOfRange),
        (port_event(2), Error::InvalidPhase),
        (command_event(0x9999, 1), Error::InvalidPhase),
        (command_event(0x2030, 1), Error::InvalidPhase),
        (command_event(0x2000, 2), Error::InvalidPhase),
        (command_event(0x2010, 3), Error::InvalidSlotID),
        (command_event(0x2020, 1), Error::InvalidPhase),
        (Trb { parameter_low: 0, parameter_high: 0, status: 0, control: (37 << 10) | 1 }, Error::NotImplemented),
    ];
    for (i, (event, error)) in cases.iter().enumerate() {
        let outcome = xhc.process_event(*event, &ports, &vec![0, 1, 1]);
        assert_eq!(outcome.status, Err(*error));
        // The event is passed over: only the new dequeue pointer is written.
        assert_eq!(
            outcome.actions,
            vec![qword(RUNTIME + 0x38, 0x3000 + 16 * (start + i + 1) as u64)]
        );
        assert_eq!(xhc.port_phase(2), ConfigPhase::Configured);
    }
    assert_eq!(Error::InvalidSlotID.kind(), ErrorKind::HardwareProtocol);
    assert_eq!(Error::TransferFailed.kind(), ErrorKind::HardwareProtocol);
    assert_eq!(Error::InvalidPhase.kind(), ErrorKind::HardwareProtocol);
    assert_eq!(Error::NotImplemented.kind(), ErrorKind::HardwareProtocol);
    assert_eq!(Error::AlreadyAllocated.kind(), ErrorKind::HardwareProtocol);
    assert_eq!(Error::UnknownDevice.kind(), ErrorKind::HardwareProtocol);
    assert_eq!(Error::Full.kind(), ErrorKind::ResourceExhausted);
    assert_eq!(Error::IndexOutOfRange.kind(), ErrorKind::Configuration);
    assert_eq!(Error::NoPCIMSI.kind(), ErrorKind::Configuration);
    assert_eq!(Error::UnsupportedController.kind(), ErrorKind::Configuration);
}

#[test]
fn device_that_is_no_mouse_is_left_unconfigured() {
    let mut xhc = running();
    let ports = vec![0x0020_0e03, 0, 0, 0];
    let _ = xhc.configure_connected_ports(&ports);
    let none: Vec<u8> = Vec::new();
    for event in [
        port_event(1),
        command_event(0x2000, 1),
        command_event(0x2010, 1),
        transfer_event(1, 1, 1),
    ] {
        assert_eq!(xhc.process_event(event, &ports, &none).status, Ok(()));
    }
    // A keyboard: protocol 1 in place of 2.
    let mut keyboard = mouse_configuration();
    keyboard[16] = 1;
    let refused = xhc.process_event(transfer_event(1, 1, 1), &ports, &keyboard);
    assert_eq!(refused.status, Err(Error::UnknownDevice));
    assert_eq!(refused.actions, vec![qword(RUNTIME + 0x38, 0x3050)]);
    assert_eq!(xhc.port_phase(1), ConfigPhase::InitializingDevice);
}

/// A report event of slot 1, marked with the cycle state that the event
/// ring expects.
fn report_event(xhc: &Controller) -> Trb {
    transfer_event(1, 3, 1).with_cycle(xhc.primary_event_ring().cycle_bit())
}

#[test]
fn transfer_ring_links_back_after_its_last_free_position() {
    let mut xhc = configured_on_port_two();
    let ports = vec![0, 0x0000_0e03, 0, 0];
    // One report was asked for already; 29 more fill positions 1 to 29.
    for index in 1..30u64 {
        let event = report_event(&xhc);
        let outcome = xhc.process_event(event, &ports, &vec![0, 1, 1]);
        assert_eq!(outcome.actions.len(), 4);
        assert_eq!(outcome.actions[1], block(0x2_0600 + 16 * index, 0x4_0200, 8, 0x0000_0425));
    }
    let event = report_event(&xhc);
    let last = xhc.process_event(event, &ports, &vec![0, 0xff, 0]);
    assert_eq!(last.actions.len(), 5);
    assert_eq!(
        last.actions[..4],
        [
            Action::MouseMoved { displacement_x: -1, displacement_y: 0 },
            block(0x2_0600 + 16 * 30, 0x4_0200, 8, 0x0000_0425),
            block(0x2_0600 + 16 * 31, 0x2_0600, 0, 0x0000_1803),
            dword(DOORBELL + 4, 3),
        ]
    );
    // The ring has wrapped: the next block lies at its start, with the
    // cycle bit clear.
    let event = report_event(&xhc);
    let next = xhc.process_event(event, &ports, &vec![0, 0, 0]);
    assert_eq!(next.actions[1], block(0x2_0600, 0x4_0200, 8, 0x0000_0424));
}

#[test]
fn event_ring_of_the_controller_wraps_after_thirty_two_events() {
    let mut xhc = configured_on_port_two();
    let ports = vec![0, 0x0000_0e03, 0, 0];
    assert_eq!(xhc.primary_event_ring().read_index(), 8);
    for _ in 8..31 {
        let event = report_event(&xhc);
        assert_eq!(xhc.process_event(event, &ports, &Vec::new()).status, Ok(()));
    }
    assert_eq!(xhc.primary_event_ring().read_index(), 31);
    assert_eq!(xhc.dequeue_pointer(), 0x31f0);
    let event = report_event(&xhc);
    let wrapping = xhc.process_event(event, &ports, &Vec::new());
    assert_eq!(wrapping.actions.last(), Some(&qword(RUNTIME + 0x38, 0x3000)));
    assert_eq!(xhc.primary_event_ring().read_index(), 0);
    assert!(!xhc.primary_event_ring().cycle_bit());
    // A block left over from the first lap is no event now.
    let stale = transfer_event(1, 3, 1);
    let outcome = xhc.process_event(stale, &ports, &Vec::new());
    assert_eq!(outcome.status, Ok(()));
    assert_eq!(outcome.actions, Vec::new());
    assert_eq!(xhc.primary_event_ring().read_index(), 0);
}

#[test]
fn slot_handed_out_twice_is_refused() {
    let mut xhc = configured_on_port_two();
    let none: Vec<u8> = Vec::new();
    let ports = vec![0, 0x0000_0e03, 0x0020_0203, 0];
    let port = xhc.port_at(3, 0x0000_0203);
    assert_eq!(xhc.configure_port(&port).status, Ok(()));
    assert_eq!(xhc.port_phase(3), ConfigPhase::ResettingPort);
    assert_eq!(xhc.process_event(port_event(3), &ports, &none).status, Ok(()));
    assert_eq!(xhc.port_phase(3), ConfigPhase::EnablingSlot);
    // The enable slot command was stored at the fourth position.
    let twice = xhc.process_event(command_event(0x2030, 1), &ports, &none);
    assert_eq!(twice.status, Err(Error::AlreadyAllocated));
    assert_eq!(xhc.port_phase(3), ConfigPhase::EnablingSlot);
    let beyond = xhc.process_event(command_event(0x2030, 9), &ports, &none);
    assert_eq!(beyond.status, Err(Error::InvalidSlotID));
    let fresh = xhc.process_event(command_event(0x2030, 2), &ports, &none);
    assert_eq!(fresh.status, Ok(()));
    assert_eq!(xhc.port_phase(3), ConfigPhase::AddressingDevice);
}

#[test]
fn reset_that_has_not_ended_is_waited_for() {
    let mut xhc = running();
    let ports = vec![0x0000_0203, 0, 0, 0];
    let _ = xhc.configure_connected_ports(&ports);
    let still = xhc.process_event(port_event(1), &vec![0x0000_0211, 0, 0, 0], &Vec::new());
    assert_eq!(still.status, Ok(()));
    assert_eq!(still.actions, vec![qword(RUNTIME + 0x38, 0x3010)]);
    assert_eq!(xhc.port_phase(1), ConfigPhase::ResettingPort);
}

#[test]
fn device_attached_later_is_reset_on_its_event() {
    let mut xhc = running();
    let none = vec![0u32, 0, 0, 0];
    assert_eq!(xhc.configure_connected_ports(&none).actions, Vec::new());
    let outcome = xhc.process_event(port_event(4), &vec![0, 0, 0, 0x0002_0203], &Vec::new());
    assert_eq!(outcome.status, Ok(()));
    assert_eq!(
        outcome.actions,
        vec![dword(OPERATIONAL + 0x430, 0x0002_0210), qword(RUNTIME + 0x38, 0x3010)]
    );
    assert_eq!(xhc.port_phase(4), ConfigPhase::ResettingPort);
    // An event for a port whose register the snapshot does not hold finds
    // no device there.
    let short = xhc.process_event(port_event(3), &vec![0x203], &Vec::new());
    assert_eq!(short.status, Ok(()));
    assert_eq!(xhc.port_phase(3), ConfigPhase::NotConnected);
}

#[test]
fn event_ring_cursor_wraps_and_flips_its_cycle() {
    let mut ring = EventRing::new(4).unwrap();
    assert_eq!(ring.size(), 4);
    assert!(ring.cycle_bit());
    let set = Trb { parameter_low: 0, parameter_high: 0, status: 0, control: 1 };
    let clear = Trb { parameter_low: 0, parameter_high: 0, status: 0, control: 0 };
    assert!(ring.has_front(set));
    assert!(!ring.has_front(clear));
    for index in 0..4usize {
        assert_eq!(ring.read_index(), index);
        assert_eq!(ring.dequeue_offset(), 16 * index as u64);
        ring.pop();
    }
    assert_eq!(ring.read_index(), 0);
    assert!(!ring.cycle_bit());
    assert!(ring.has_front(clear));
    assert!(!ring.has_front(set));
    assert!(EventRing::new(0).is_none());
    assert!(EventRing::new(0x1_0001).is_none());
    assert!(EventRing::new(0x1_0000).is_some());
}

#[test]
fn command_ring_links_back_and_flips_its_cycle() {
    let mut ring = CommandRing::new(0x2000, 4).unwrap();
    assert_eq!(ring.base(), 0x2000);
    assert!(ring.cycle_bit());
    let first = ring.push(Trb::enable_slot_command());
    assert_eq!(
        first,
        vec![RingStore {
            index: 0,
            trb: Trb { parameter_low: 0, parameter_high: 0, status: 0, control: 0x2401 },
        }]
    );
    let second = ring.push(Trb::address_device_command(0x1_0000_0440, 2));
    assert_eq!(
        second,
        vec![RingStore {
            index: 1,
            trb: Trb { parameter_low: 0x440, parameter_high: 1, status: 0, control: 0x0200_2c01 },
        }]
    );
    let third = ring.push(Trb::configure_endpoint_command(0x440, 2));
    assert_eq!(
        third,
        vec![
            RingStore {
                index: 2,
                trb: Trb { parameter_low: 0x440, parameter_high: 0, status: 0, control: 0x0200_3001 },
            },
            RingStore {
                index: 3,
                trb: Trb { parameter_low: 0x2000, parameter_high: 0, status: 0, control: 0x1803 },
            },
        ]
    );
    assert!(!ring.cycle_bit());
    assert_eq!(ring.issued_type(0x2000), Some(9));
    assert_eq!(ring.issued_type(0x2010), Some(11));
    assert_eq!(ring.issued_type(0x2020), Some(12));
    assert_eq!(ring.issued_type(0x2030), None);
    assert_eq!(ring.issued_type(0x2008), None);
    assert_eq!(ring.issued_type(0x1ff0), None);
    let fourth = ring.push(Trb::enable_slot_command());
    assert_eq!(
        fourth,
        vec![RingStore {
            index: 0,
            trb: Trb { parameter_low: 0, parameter_high: 0, status: 0, control: 0x2400 },
        }]
    );
    assert!(CommandRing::new(0x2000, 1).is_none());
    assert!(CommandRing::new(0x2008, 4).is_none());
    assert!(CommandRing::new(u64::MAX - 15, 4).is_none());
}

#[test]
fn event_blocks_are_decoded() {
    assert_eq!(port_event(3).event(), Event::PortStatusChange { port: 3 });
    assert_eq!(
        command_event(0x1_0000_2010, 7).event(),
        Event::CommandCompletion { slot: 7, code: 1, command: 0x1_0000_2010 }
    );
    assert_eq!(transfer_event(2, 3, 13).event(), Event::Transfer { slot: 2, endpoint: 3, code: 13 });
    let other = Trb { parameter_low: 0, parameter_high: 0, status: 0, control: 8 << 10 };
    assert_eq!(other.event(), Event::Unknown { trb_type: 8 });
    assert_eq!(other.trb_type(), 8);
    assert!(!other.cycle_bit());
    assert!(other.with_cycle(true).cycle_bit());
    assert_eq!(other.with_cycle(true).control, (8 << 10) | 1);
    assert_eq!(port_event(3).with_cycle(false).control, 34 << 10);
    assert_eq!(Trb::link(0x2000, false).control, 0x1800);
    assert_eq!(Trb::link(0x2000, true).pointer(), 0x2000);
    assert_eq!(Trb::command(23, 0, 0).control, 23 << 10);
}

#[test]
fn transfer_blocks_carry_their_stage() {
    assert_eq!(
        Trb::setup_stage(0x0012_0000_0100_0680, 3),
        Trb { parameter_low: 0x0100_0680, parameter_high: 0x0012_0000, status: 8, control: 0x0003_0840 }
    );
    assert_eq!(Trb::setup_stage(0, 0).control, 0x0840);
    assert_eq!(Trb::setup_stage(0, 2).control, 0x0002_0840);
    assert_eq!(
        Trb::data_stage(0x1_0000_2000, 18, true),
        Trb { parameter_low: 0x2000, parameter_high: 1, status: 18, control: 0x0001_0c00 }
    );
    assert_eq!(Trb::data_stage(0x2000, 64, false).control, 0x0c00);
    assert_eq!(Trb::status_stage(true).control, 0x0001_1020);
    assert_eq!(Trb::status_stage(false).control, 0x1020);
    assert_eq!(
        Trb::normal(0x4_0200, 8),
        Trb { parameter_low: 0x4_0200, parameter_high: 0, status: 8, control: 0x0424 }
    );
}

#[test]
fn shared_memory_is_laid_out_by_slot() {
    let l = layout();
    assert_eq!(l.input_context_address(0), 0x1_0000);
    assert_eq!(l.input_context_address(2), 0x1_0880);
    assert_eq!(l.device_context_address(1), 0x1c00);
    assert_eq!(l.device_context_address(8), 0x3800);
    assert_eq!(l.device_context_entry_address(1), 0x1008);
    assert_eq!(l.device_context_entry_address(255), 0x17f8);
    assert_eq!(l.control_ring_address(1), 0x2_0400);
    assert_eq!(l.interrupt_ring_address(1), 0x2_0600);
    assert_eq!(l.control_ring_address(255), 0x5_fc00);
    assert_eq!(l.buffer_address(0), 0x4_0000);
    assert_eq!(l.buffer_address(3), 0x4_0600);
}
