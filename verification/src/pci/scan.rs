//! Enumeration of the PCI bus, depth first, as a sequence of probes.
//!
//! The scan does not read the bus itself. It names the function to probe
//! next; the caller reads that function's header registers and reports them
//! back. The order of the probes and of the devices found is the order of a
//! recursive walk that descends into the secondary bus of each bridge as soon
//! as the bridge is found.

use crate::error::Error;
use crate::pci::{
    header_type_of, is_single_function_device, secondary_bus_of, vendor_id_of, ClassCode, Device,
    DeviceTable, DEVICES_PER_BUS, DEVICE_TABLE_CAPACITY, FUNCTIONS_PER_DEVICE, VENDOR_NONE,
};
use vstd::prelude::*;

verus! {

/// A function's place on the bus.
#[derive(Clone, Copy, Debug, PartialEq, Eq, Structural)]
pub struct Location {
    pub bus: u8,
    pub device: u8,
    pub function: u8,
}

/// The header registers of one function, as read: the dwords at `REG_ID`,
/// `REG_CLASS`, `REG_HEADER_TYPE` and `REG_BUS_NUMBERS`.
#[derive(Clone, Copy, Debug, PartialEq, Eq, Structural)]
pub struct FunctionHeader {
    pub id: u32,
    pub class: u32,
    pub header: u32,
    pub bus_numbers: u32,
}

impl FunctionHeader {
    /// Vendor ID : the low half of the ID register.
    pub open spec fn vendor_id(self) -> u16 {
        (self.id % 0x1_0000) as u16
    }

    /// Whether a function answered: an absent one reads as all ones.
    pub open spec fn present(self) -> bool {
        self.vendor_id() != VENDOR_NONE
    }

    /// Header type: bits 16 to 23 of the header register.
    pub open spec fn header_type(self) -> u8 {
        ((self.header / 0x1_0000) % 0x100) as u8
    }

    /// Whether the device has one function only: bit 7 of the header type
    /// is clear.
    pub open spec fn single_function(self) -> bool {
        self.header_type() < 0x80
    }

    /// Secondary bus of a bridge: bits 8 to 15 of the bus number register.
    pub open spec fn secondary_bus(self) -> u8 {
        ((self.bus_numbers / 0x100) % 0x100) as u8
    }

    /// The record of the function at `location` whose header this is.
    pub open spec fn device_at(self, location: Location) -> Device {
        Device {
            bus: location.bus,
            device: location.device,
            function: location.function,
            vendor_id: self.vendor_id(),
            header_type: self.header_type(),
            class_code: ClassCode::spec_from_register(self.class),
        }
    }
}

/// A loop of the walk that is not finished yet.
#[derive(Clone, Copy, Debug, PartialEq, Eq, Structural)]
pub enum Frame {
    /// The devices of `bus` from `device` on are still to be probed.
    Bus { bus: u8, device: u8 },
    /// The functions of a multi-function device from `function` on are
    /// still to be probed.
    Functions { bus: u8, device: u8, function: u8 },
}

impl Frame {
    /// The function that this loop probes next.
    pub open spec fn location(self) -> Location {
        match self {
            Frame::Bus { bus, device } => Location { bus, device, function: 0 },
            Frame::Functions { bus, device, function } => Location { bus, device, function },
        }
    }

    /// The loop counter lies inside its range.
    pub open spec fn valid(self) -> bool {
        match self {
            Frame::Bus { bus, device } => device < DEVICES_PER_BUS,
            Frame::Functions { bus, device, function } => device < DEVICES_PER_BUS && 1 <= function
                < FUNCTIONS_PER_DEVICE,
        }
    }

    /// Number of probes the loop can still make by itself.
    pub open spec fn cost(self) -> nat {
        match self {
            Frame::Bus { bus, device } => (DEVICES_PER_BUS - device) as nat,
            Frame::Functions { bus, device, function } => (FUNCTIONS_PER_DEVICE - function) as nat,
        }
    }
}

/// The state of a scan.
pub struct ScanState {
    /// The devices found so far.
    pub devices: Seq<Device>,
    /// The unfinished loops, innermost last.
    pub stack: Seq<Frame>,
    /// Whether the host bridge at 0:0.0 has been probed.
    pub started: bool,
    /// Next function of a multi-function host bridge to probe; each one
    /// found stands for the bus of the same number. `FUNCTIONS_PER_DEVICE`
    /// when none is left.
    pub host_next: u8,
    /// Whether the scan was given up because the device table was full.
    pub failed: bool,
}

impl ScanState {
    /// What holds of every state that a scan reaches: the devices fit the
    /// table, every unfinished loop stands within its range, and a scan
    /// that has not begun or was given up has no loop left.
    pub open spec fn wf(self) -> bool {
        &&& DeviceTable::well_formed(self.devices)
        &&& forall|i: int| 0 <= i < self.stack.len() ==> (#[trigger] self.stack[i]).valid()
        &&& self.host_next <= FUNCTIONS_PER_DEVICE
        &&& !self.started ==> self.stack.len() == 0 && self.devices.len() == 0 && !self.failed
        &&& self.failed ==> self.stack.len() == 0 && self.host_next == FUNCTIONS_PER_DEVICE
    }

    /// The function to probe next, or `None` when the scan is over.
    pub open spec fn next(self) -> Option<Location> {
        if self.failed {
            None
        } else if !self.started {
            Some(Location { bus: 0, device: 0, function: 0 })
        } else if self.stack.len() > 0 {
            Some(self.stack.last().location())
        } else if self.host_next < FUNCTIONS_PER_DEVICE {
            Some(Location { bus: 0, device: 0, function: self.host_next })
        } else {
            None
        }
    }

    /// The scan given up for want of room in the table.
    pub open spec fn give_up(self) -> ScanState {
        ScanState {
            devices: self.devices,
            stack: Seq::empty(),
            started: true,
            host_next: FUNCTIONS_PER_DEVICE,
            failed: true,
        }
    }

    /// The function at `location` answered with `header`: it is recorded,
    /// and where it is a bridge its secondary bus is walked next. With the
    /// table full the scan is given up.
    pub open spec fn found(self, location: Location, header: FunctionHeader) -> ScanState {
        if self.devices.len() >= DEVICE_TABLE_CAPACITY {
            self.give_up()
        } else {
            ScanState {
                devices: self.devices.push(header.device_at(location)),
                stack: if ClassCode::spec_from_register(header.class).is_bridge() {
                    self.stack.push(Frame::Bus { bus: header.secondary_bus(), device: 0 })
                } else {
                    self.stack
                },
                started: self.started,
                host_next: self.host_next,
                failed: self.failed,
            }
        }
    }

    /// Function `function` of a multi-function host bridge answered with
    /// `header`: where it is present, the bus of its number is walked.
    pub open spec fn host_function(self, function: u8, header: FunctionHeader) -> ScanState {
        ScanState {
            devices: self.devices,
            stack: if header.present() {
                self.stack.push(Frame::Bus { bus: function, device: 0 })
            } else {
                self.stack
            },
            started: true,
            host_next: (function + 1) as u8,
            failed: self.failed,
        }
    }

    /// The state with `stack` as its unfinished loops.
    pub open spec fn with_stack(self, stack: Seq<Frame>) -> ScanState {
        ScanState {
            devices: self.devices,
            stack,
            started: self.started,
            host_next: self.host_next,
            failed: self.failed,
        }
    }

    /// The state after the function named by `next` answered with `header`.
    /// A finished scan stays as it is.
    pub open spec fn record(self, header: FunctionHeader) -> ScanState {
        if self.failed {
            self
        } else if !self.started {
            if header.single_function() {
                ScanState {
                    devices: self.devices,
                    stack: seq![Frame::Bus { bus: 0, device: 0 }],
                    started: true,
                    host_next: FUNCTIONS_PER_DEVICE,
                    failed: false,
                }
            } else {
                self.host_function(0, header)
            }
        } else if self.stack.len() > 0 {
            let rest = self.stack.drop_last();
            match self.stack.last() {
                Frame::Bus { bus, device } => {
                    let resumed = if device + 1 < DEVICES_PER_BUS {
                        rest.push(Frame::Bus { bus, device: (device + 1) as u8 })
                    } else {
                        rest
                    };
                    if !header.present() {
                        self.with_stack(resumed)
                    } else {
                        let inner = if header.single_function() {
                            resumed
                        } else {
                            resumed.push(Frame::Functions { bus, device, function: 1 })
                        };
                        self.with_stack(inner).found(Location { bus, device, function: 0 }, header)
                    }
                },
                Frame::Functions { bus, device, function } => {
                    let resumed = if function + 1 < FUNCTIONS_PER_DEVICE {
                        rest.push(Frame::Functions { bus, device, function: (function + 1) as u8 })
                    } else {
                        rest
                    };
                    if !header.present() {
                        self.with_stack(resumed)
                    } else {
                        self.with_stack(resumed).found(Location { bus, device, function }, header)
                    }
                },
            }
        } else if self.host_next < FUNCTIONS_PER_DEVICE {
            self.host_function(self.host_next, header)
        } else {
            self
        }
    }

    /// An upper bound on the number of probes still to come.
    pub open spec fn remaining_probes(self) -> nat {
        if self.failed {
            0
        } else {
            ((if !self.started {
                265int
            } else {
                (FUNCTIONS_PER_DEVICE - self.host_next) * 33
            }) + stack_cost(self.stack) + (DEVICE_TABLE_CAPACITY - self.devices.len()) * 40) as nat
        }
    }
}

/// Number of probes that the loops of `stack` can still make by themselves.
pub open spec fn stack_cost(stack: Seq<Frame>) -> nat
    decreases stack.len(),
{
    if stack.len() == 0 {
        0
    } else {
        stack_cost(stack.drop_last()) + stack.last().cost()
    }
}

proof fn lemma_stack_cost_push(stack: Seq<Frame>, frame: Frame)
    ensures
        stack_cost(stack.push(frame)) == stack_cost(stack) + frame.cost(),
{
    assert(stack.push(frame).drop_last() =~= stack);
}

/// Recording a probe keeps the state well formed, never forgets a device,
/// and brings the end of the scan nearer.
pub proof fn lemma_record_progress(state: ScanState, header: FunctionHeader)
    requires
        state.wf(),
    ensures
        state.record(header).wf(),
        state.devices.is_prefix_of(state.record(header).devices),
        state.record(header).devices.len() <= state.devices.len() + 1,
        state.next() is Some ==> state.record(header).remaining_probes() < state.remaining_probes(),
        state.next() is None ==> state.record(header) == state,
        state.record(header).failed && !state.failed ==> state.devices.len()
            == DEVICE_TABLE_CAPACITY && header.present(),
        state.record(header).devices.len() == state.devices.len() + 1 ==> state.next() is Some
            && header.present() && state.record(header).devices.last() == header.device_at(
            state.next()->0,
        ),
{
    let after = state.record(header);
    if state.failed {
    } else if !state.started {
        assert(state.stack =~= Seq::<Frame>::empty());
        lemma_stack_cost_push(Seq::<Frame>::empty(), Frame::Bus { bus: 0, device: 0 });
        assert(seq![Frame::Bus { bus: 0, device: 0 }] =~= Seq::<Frame>::empty().push(
            Frame::Bus { bus: 0, device: 0 },
        ));
        lemma_stack_cost_push(state.stack, Frame::Bus { bus: 0, device: 0 });
    } else if state.stack.len() > 0 {
        let rest = state.stack.drop_last();
        let top = state.stack.last();
        assert(top.valid());
        assert(state.stack =~= rest.push(top));
        lemma_stack_cost_push(rest, top);
        assert forall|i: int| 0 <= i < rest.len() implies (#[trigger] rest[i]).valid() by {
            assert(rest[i] == state.stack[i]);
        }
        match top {
            Frame::Bus { bus, device } => {
                let next_frame = Frame::Bus { bus, device: (device + 1) as u8 };
                let resumed = if device + 1 < DEVICES_PER_BUS {
                    rest.push(next_frame)
                } else {
                    rest
                };
                lemma_stack_cost_push(rest, next_frame);
                let functions = Frame::Functions { bus, device, function: 1 };
                let inner = if header.single_function() {
                    resumed
                } else {
                    resumed.push(functions)
                };
                lemma_stack_cost_push(resumed, functions);
                let bridge = Frame::Bus { bus: header.secondary_bus(), device: 0 };
                lemma_stack_cost_push(inner, bridge);
            },
            Frame::Functions { bus, device, function } => {
                let next_frame = Frame::Functions { bus, device, function: (function + 1) as u8 };
                let resumed = if function + 1 < FUNCTIONS_PER_DEVICE {
                    rest.push(next_frame)
                } else {
                    rest
                };
                lemma_stack_cost_push(rest, next_frame);
                let bridge = Frame::Bus { bus: header.secondary_bus(), device: 0 };
                lemma_stack_cost_push(resumed, bridge);
            },
        }
    } else if state.host_next < FUNCTIONS_PER_DEVICE {
        lemma_stack_cost_push(state.stack, Frame::Bus { bus: state.host_next, device: 0 });
    }
}

/// A scan of the bus in progress. Its view is the `ScanState` that the
/// contracts speak of.
pub struct BusScan {
    table: DeviceTable,
    stack: Vec<Frame>,
    started: bool,
    host_next: u8,
    failed: bool,
}

impl View for BusScan {
    type V = ScanState;

    closed spec fn view(&self) -> ScanState {
        ScanState {
            devices: self.table@,
            stack: self.stack@,
            started: self.started,
            host_next: self.host_next,
            failed: self.failed,
        }
    }
}

/// The state in which every scan begins: nothing found, the host bridge
/// still to be probed.
pub open spec fn initial_scan_state() -> ScanState {
    ScanState {
        devices: Seq::empty(),
        stack: Seq::empty(),
        started: false,
        host_next: 0,
        failed: false,
    }
}

impl ScanState {
    /// The state after the probes were answered by `answers`, in turn.
    pub open spec fn run(self, answers: Seq<FunctionHeader>) -> ScanState
        decreases answers.len(),
    {
        if answers.len() == 0 {
            self
        } else {
            self.run(answers.drop_last()).record(answers.last())
        }
    }
}

proof fn lemma_stack_cost_positive(stack: Seq<Frame>)
    requires
        stack.len() > 0,
        forall|i: int| 0 <= i < stack.len() ==> (#[trigger] stack[i]).valid(),
    ensures
        stack_cost(stack) > 0,
{
    assert(stack.last().valid());
}

/// Every scan ends: whatever the functions answer, after as many probes as
/// `remaining_probes` allows there is none left to make. A scan that has
/// just begun ends within 1545 probes.
pub proof fn lemma_scan_ends(state: ScanState, answers: Seq<FunctionHeader>)
    requires
        state.wf(),
    ensures
        state.run(answers).wf(),
        state.devices.is_prefix_of(state.run(answers).devices),
        state.run(answers).next() is None || state.run(answers).remaining_probes() + answers.len()
            <= state.remaining_probes(),
        answers.len() >= state.remaining_probes() ==> state.run(answers).next() is None,
        initial_scan_state().remaining_probes() == 1545,
    decreases answers.len(),
{
    if answers.len() > 0 {
        let before = state.run(answers.drop_last());
        lemma_scan_ends(state, answers.drop_last());
        lemma_record_progress(before, answers.last());
    }
    let after = state.run(answers);
    if after.next() is Some && after.stack.len() > 0 {
        lemma_stack_cost_positive(after.stack);
    }
    assert(stack_cost(Seq::<Frame>::empty()) == 0);
}

/// The place that a device record names.
pub open spec fn location_of(device: Device) -> Location {
    Location { bus: device.bus, device: device.device, function: device.function }
}

/// The state of a scan of the bus whose function at each place answers as
/// `bus` tells, after `probes` probes; a scan that has ended stays as it
/// is.
pub open spec fn scan_of(bus: spec_fn(Location) -> FunctionHeader, probes: nat) -> ScanState
    decreases probes,
{
    if probes == 0 {
        initial_scan_state()
    } else {
        let before = scan_of(bus, (probes - 1) as nat);
        match before.next() {
            Some(location) => before.record(bus(location)),
            None => before,
        }
    }
}

/// Every record of `devices` is of a function that is present on `bus`,
/// and holds what that function answers.
pub open spec fn as_probed(devices: Seq<Device>, bus: spec_fn(Location) -> FunctionHeader) -> bool {
    forall|i: int|
        0 <= i < devices.len() ==> bus(location_of(#[trigger] devices[i])).present() && devices[i]
            == bus(location_of(devices[i])).device_at(location_of(devices[i]))
}

/// A scan records nothing but what is on the bus: each device in the table
/// was present at the place it is recorded under, with the vendor, class
/// and header type recorded. And the scan of any bus is over after 1545
/// probes at most.
pub proof fn lemma_scan_records_what_is_there(
    bus: spec_fn(Location) -> FunctionHeader,
    probes: nat,
)
    ensures
        scan_of(bus, probes).wf(),
        as_probed(scan_of(bus, probes).devices, bus),
        scan_of(bus, probes).next() is None || scan_of(bus, probes).remaining_probes() + probes
            <= 1545,
        probes >= 1545 ==> scan_of(bus, probes).next() is None,
    decreases probes,
{
    assert(stack_cost(Seq::<Frame>::empty()) == 0);
    if probes > 0 {
        let before = scan_of(bus, (probes - 1) as nat);
        lemma_scan_records_what_is_there(bus, (probes - 1) as nat);
        match before.next() {
            Some(location) => {
                let header = bus(location);
                let after = before.record(header);
                lemma_record_progress(before, header);
                assert forall|i: int| 0 <= i < after.devices.len() implies bus(
                    location_of(#[trigger] after.devices[i]),
                ).present() && after.devices[i] == bus(location_of(after.devices[i])).device_at(
                    location_of(after.devices[i]),
                ) by {
                    if i < before.devices.len() {
                        assert(after.devices[i] == before.devices[i]);
                    } else {
                        assert(after.devices[i] == after.devices.last());
                    }
                }
            },
            None => {},
        }
    }
    let after = scan_of(bus, probes);
    if after.next() is Some && after.stack.len() > 0 {
        lemma_stack_cost_positive(after.stack);
    }
}

/// Begins a scan of all buses. The host bridge at 0:0.0 is probed first:
/// where it has a single function, bus 0 is walked; where it has several,
/// each function that is present stands for a bus of its own.
pub fn scan_all_bus() -> (scan: BusScan)
    ensures
        scan@ == initial_scan_state(),
        scan@.wf(),
{
    let scan = BusScan {
        table: DeviceTable::new(),
        stack: Vec::new(),
        started: false,
        host_next: 0,
        failed: false,
    };
    assert(scan@.stack =~= Seq::<Frame>::empty());
    scan
}

impl BusScan {
    /// The function whose header the caller is to read and `record` next,
    /// or `None` when the scan is over.
    pub fn next_probe(&self) -> (location: Option<Location>)
        requires
            self@.wf(),
        ensures
            location == self@.next(),
            location matches Some(l) ==> l.device < DEVICES_PER_BUS && l.function
                < FUNCTIONS_PER_DEVICE,
    {
        if self.failed {
            None
        } else if !self.started {
            Some(Location { bus: 0, device: 0, function: 0 })
        } else if self.stack.len() > 0 {
            let top = self.stack[self.stack.len() - 1];
            assert(top == self@.stack.last());
            assert(top.valid());
            match top {
                Frame::Bus { bus, device } => Some(Location { bus, device, function: 0 }),
                Frame::Functions { bus, device, function } => Some(
                    Location { bus, device, function },
                ),
            }
        } else if self.host_next < FUNCTIONS_PER_DEVICE {
            Some(Location { bus: 0, device: 0, function: self.host_next })
        } else {
            None
        }
    }

    /// Whether the scan is over, for either reason.
    pub fn is_finished(&self) -> (done: bool)
        requires
            self@.wf(),
        ensures
            done == (self@.next() is None),
    {
        self.next_probe().is_none()
    }

    /// How the scan stands: `Error::Full` once a device was found that the
    /// table could not take.
    pub fn result(&self) -> (r: Result<(), Error>)
        ensures
            r == if self@.failed {
                Err::<(), Error>(Error::Full)
            } else {
                Ok::<(), Error>(())
            },
    {
        if self.failed {
            Err(Error::Full)
        } else {
            Ok(())
        }
    }

    /// The devices found so far.
    pub fn devices(&self) -> (table: &DeviceTable)
        ensures
            table@ == self@.devices,
    {
        &self.table
    }

    /// Ends the scan and hands out the devices found.
    pub fn into_devices(self) -> (table: DeviceTable)
        ensures
            table@ == self@.devices,
    {
        self.table
    }

    fn found(&mut self, location: Location, header: FunctionHeader)
        requires
            location.device < DEVICES_PER_BUS,
            location.function < FUNCTIONS_PER_DEVICE,
        ensures
            final(self)@ == old(self)@.found(location, header),
    {
        let class_code = ClassCode::from_register(header.class);
        let device = Device {
            bus: location.bus,
            device: location.device,
            function: location.function,
            vendor_id: vendor_id_of(header.id),
            header_type: header_type_of(header.header),
            class_code,
        };
        match self.table.add_device(device) {
            Err(_) => {
                self.stack.clear();
                self.started = true;
                self.host_next = FUNCTIONS_PER_DEVICE;
                self.failed = true;
            },
            Ok(()) => {
                if class_code.is_bridge() {
                    self.stack.push(
                        Frame::Bus { bus: secondary_bus_of(header.bus_numbers), device: 0 },
                    );
                }
            },
        }
    }

    fn host_function(&mut self, function: u8, header: FunctionHeader)
        requires
            function < FUNCTIONS_PER_DEVICE,
        ensures
            final(self)@ == old(self)@.host_function(function, header),
    {
        if vendor_id_of(header.id) != VENDOR_NONE {
            self.stack.push(Frame::Bus { bus: function, device: 0 });
        }
        self.started = true;
        self.host_next = function + 1;
    }

    /// Takes the header that was read from the function named by
    /// `next_probe` and moves the scan on. Fails with `Error::Full`, for
    /// this and every later call, once a device is found while the table is
    /// full; a finished scan is left as it is.
    pub fn record(&mut self, header: FunctionHeader) -> (r: Result<(), Error>)
        requires
            old(self)@.wf(),
        ensures
            final(self)@ == old(self)@.record(header),
            final(self)@.wf(),
            r is Err <==> final(self)@.failed,
            r is Err ==> r == Err::<(), Error>(Error::Full),
            old(self)@.next() is Some ==> final(self)@.remaining_probes() < old(
                self,
            )@.remaining_probes(),
    {
        proof {
            lemma_record_progress(old(self)@, header);
        }
        if self.failed {
            return Err(Error::Full);
        }
        let present = vendor_id_of(header.id) != VENDOR_NONE;
        let single = is_single_function_device(header_type_of(header.header));
        if !self.started {
            if single {
                self.stack.push(Frame::Bus { bus: 0, device: 0 });
                self.started = true;
                self.host_next = FUNCTIONS_PER_DEVICE;
                assert(self@.stack =~= seq![Frame::Bus { bus: 0, device: 0 }]);
            } else {
                self.host_function(0, header);
            }
        } else if self.stack.len() > 0 {
            let popped = self.stack.pop();
            let top = popped.unwrap();
            assert(top == old(self)@.stack.last());
            assert(top.valid());
            assert(self@.stack =~= old(self)@.stack.drop_last());
            match top {
                Frame::Bus { bus, device } => {
                    if device + 1 < DEVICES_PER_BUS {
                        self.stack.push(Frame::Bus { bus, device: device + 1 });
                    }
                    if present {
                        if !single {
                            self.stack.push(Frame::Functions { bus, device, function: 1 });
                        }
                        self.found(Location { bus, device, function: 0 }, header);
                    }
                },
                Frame::Functions { bus, device, function } => {
                    if function + 1 < FUNCTIONS_PER_DEVICE {
                        self.stack.push(Frame::Functions { bus, device, function: function + 1 });
                    }
                    if present {
                        self.found(Location { bus, device, function }, header);
                    }
                },
            }
        } else if self.host_next < FUNCTIONS_PER_DEVICE {
            let function = self.host_next;
            self.host_function(function, header);
        }
        self.result()
    }
}

} // verus!
