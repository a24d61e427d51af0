use mikan_os::error::Error;
use mikan_os::pci::scan::{scan_all_bus, BusScan, FunctionHeader, Location};
use mikan_os::pci::{ClassCode, Device};
use std::collections::HashMap;

type Bus = HashMap<(u8, u8, u8), FunctionHeader>;

const ABSENT: FunctionHeader =
    FunctionHeader { id: 0xffff_ffff, class: 0xffff_ffff, header: 0xffff_ffff, bus_numbers: 0xffff_ffff };

fn function(vendor: u16, class: u32, header_type: u8, secondary: u8) -> FunctionHeader {
    FunctionHeader {
        id: 0x0001_0000 | vendor as u32,
        class,
        header: (header_type as u32) << 16,
        bus_numbers: (secondary as u32) << 8,
    }
}

/// Runs a scan to its end against `bus` and returns the scan, the places
/// probed, and the result of the last `record`.
fn run(bus: &Bus) -> (BusScan, Vec<Location>, Result<(), Error>) {
    let mut scan = scan_all_bus();
    let mut probed = Vec::new();
    let mut last = Ok(());
    while let Some(location) = scan.next_probe() {
        assert!(probed.len() < 10_000);
        probed.push(location);
        let header = bus
            .get(&(location.bus, location.device, location.function))
            .copied()
            .unwrap_or(ABSENT);
        last = scan.record(header);
    }
    assert!(scan.is_finished());
    (scan, probed, last)
}

fn places(scan: &BusScan) -> Vec<(u8, u8, u8)> {
    let table = scan.devices();
    (0..table.len())
        .map(|i| {
            let d = table.get(i).unwrap();
            (d.bus, d.device, d.function)
        })
        .collect()
}

#[test]
fn scan_starts_at_the_host_bridge() {
    let scan = scan_all_bus();
    assert_eq!(scan.next_probe(), Some(Location { bus: 0, device: 0, function: 0 }));
    assert!(!scan.is_finished());
    assert_eq!(scan.result(), Ok(()));
    assert_eq!(scan.devices().len(), 0);
}

#[test]
fn scan_of_an_empty_bus_finds_nothing() {
    let (scan, probed, last) = run(&Bus::new());
    assert_eq!(last, Ok(()));
    assert_eq!(scan.devices().len(), 0);
    // An absent host bridge reads as a multi-function header: its eight
    // functions are probed, the first of them by the opening probe.
    assert_eq!(probed.len(), 8);
    assert_eq!(probed[7], Location { bus: 0, device: 0, function: 7 });
}

#[test]
fn scan_descends_into_a_bridge_as_soon_as_it_is_found() {
    let mut bus = Bus::new();
    bus.insert((0, 0, 0), function(0x8086, 0x0600_0000, 0x00, 0));
    bus.insert((0, 1, 0), function(0x8086, 0x0604_0000, 0x01, 1));
    bus.insert((0, 2, 0), function(0x10ec, 0x0200_0000, 0x80, 0));
    bus.insert((0, 2, 3), function(0x10ec, 0x0c03_2000, 0x80, 0));
    bus.insert((1, 0, 0), function(0x1b36, 0x0c03_3000, 0x00, 0));
    bus.insert((1, 5, 0), function(0x1234, 0x0300_0000, 0x00, 0));
    let (scan, probed, last) = run(&bus);
    assert_eq!(last, Ok(()));
    assert_eq!(scan.result(), Ok(()));
    assert_eq!(
        places(&scan),
        vec![(0, 0, 0), (0, 1, 0), (1, 0, 0), (1, 5, 0), (0, 2, 0), (0, 2, 3)]
    );
    // The opening probe, 32 devices on each of two buses, and functions 1
    // to 7 of the one multi-function device.
    assert_eq!(probed.len(), 1 + 32 + 32 + 7);
    let table = scan.into_devices();
    assert_eq!(
        table.get(2),
        Some(Device {
            bus: 1,
            device: 0,
            function: 0,
            vendor_id: 0x1b36,
            header_type: 0x00,
            class_code: ClassCode { base: 0x0c, sub: 0x03, interface: 0x30 },
        })
    );
    assert_eq!(table.get(1).unwrap().header_type, 0x01);
    assert_eq!(table.get(5).unwrap().class_code, ClassCode { base: 0x0c, sub: 0x03, interface: 0x20 });
}

#[test]
fn scan_walks_a_bus_for_each_function_of_a_multi_function_host() {
    let mut bus = Bus::new();
    bus.insert((0, 0, 0), function(0x8086, 0x0600_0000, 0x80, 0));
    bus.insert((0, 0, 2), function(0x8086, 0x0600_0000, 0x80, 0));
    bus.insert((0, 3, 0), function(0x1111, 0x0100_0000, 0x00, 0));
    bus.insert((2, 4, 0), function(0x2222, 0x0100_0000, 0x00, 0));
    bus.insert((1, 4, 0), function(0x3333, 0x0100_0000, 0x00, 0));
    let (scan, _, last) = run(&bus);
    assert_eq!(last, Ok(()));
    // Bus 0 for function 0, bus 2 for function 2; bus 1 is never walked.
    assert_eq!(places(&scan), vec![(0, 0, 0), (0, 0, 2), (0, 3, 0), (2, 4, 0)]);
}

#[test]
fn scan_fails_when_the_table_is_full() {
    let mut bus = Bus::new();
    bus.insert((0, 0, 0), function(0x8086, 0x0600_0000, 0x00, 0));
    bus.insert((0, 1, 0), function(0x8086, 0x0604_0000, 0x01, 1));
    for dev in 0..31u8 {
        bus.insert((1, dev, 0), function(0x1000 + dev as u16, 0x0200_0000, 0x00, 0));
    }
    let (scan, _, last) = run(&bus);
    assert_eq!(last, Err(Error::Full));
    assert_eq!(scan.result(), Err(Error::Full));
    assert_eq!(scan.next_probe(), None);
    let found = places(&scan);
    assert_eq!(found.len(), 32);
    assert_eq!(found[0], (0, 0, 0));
    assert_eq!(found[1], (0, 1, 0));
    assert_eq!(found[31], (1, 29, 0));
}

#[test]
fn scan_with_exactly_thirty_two_devices_succeeds() {
    let mut bus = Bus::new();
    bus.insert((0, 0, 0), function(0x8086, 0x0600_0000, 0x00, 0));
    for dev in 1..32u8 {
        bus.insert((0, dev, 0), function(0x1000 + dev as u16, 0x0200_0000, 0x00, 0));
    }
    let (scan, _, last) = run(&bus);
    assert_eq!(last, Ok(()));
    assert_eq!(scan.devices().len(), 32);
}

#[test]
fn scan_of_a_bridge_that_leads_back_ends_with_a_full_table() {
    let mut bus = Bus::new();
    bus.insert((0, 0, 0), function(0x8086, 0x0604_0000, 0x01, 0));
    let (scan, probed, last) = run(&bus);
    assert_eq!(last, Err(Error::Full));
    assert_eq!(scan.devices().len(), 32);
    assert!(probed.len() <= 34);
}

#[test]
fn finished_scan_ignores_further_records() {
    let (mut scan, _, _) = run(&Bus::new());
    assert_eq!(scan.record(function(0x8086, 0x0c03_3000, 0, 0)), Ok(()));
    assert_eq!(scan.devices().len(), 0);
    assert_eq!(scan.next_probe(), None);
}
