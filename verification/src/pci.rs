//! PCI configuration space: how a register is addressed, what the header
//! registers mean, and the table of devices found on the bus.
//!
//! Register values are taken and produced as plain integers. Reading and
//! writing them through the address and data ports is left to the caller.

pub mod config;
pub mod msi;
pub mod scan;

use crate::error::Error;
use vstd::arithmetic::div_mod::lemma_fundamental_div_mod_converse;
use vstd::prelude::*;

verus! {

/// Vendor ID that an absent function reports.
pub const VENDOR_NONE: u16 = 0xffff;

/// Vendor ID of Intel.
pub const VENDOR_INTEL: u16 = 0x8086;

/// Number of devices on one bus.
pub const DEVICES_PER_BUS: u8 = 32;

/// Number of functions in one device.
pub const FUNCTIONS_PER_DEVICE: u8 = 8;

/// Number of device records the table can hold.
pub const DEVICE_TABLE_CAPACITY: usize = 32;

/// Offset of the vendor and device ID register.
pub const REG_ID: u8 = 0x00;

/// Offset of the class code and revision register.
pub const REG_CLASS: u8 = 0x08;

/// Offset of the register that holds the header type.
pub const REG_HEADER_TYPE: u8 = 0x0c;

/// Offset of the first base address register.
pub const REG_BAR0: u8 = 0x10;

/// Offset of a bridge's bus number register.
pub const REG_BUS_NUMBERS: u8 = 0x18;

/// Offset of the capabilities pointer.
pub const REG_CAPABILITIES: u8 = 0x34;

/// The value to write to the configuration address port to select the
/// register at `reg_addr` of function `function` of device `device` on bus
/// `bus`: the enable bit 31, the bus in bits 16 to 23, the device in bits 11
/// to 15, the function in bits 8 to 10 and the offset, rounded down to a
/// multiple of four, in bits 0 to 7.
pub open spec fn spec_make_address(bus: u8, device: u8, function: u8, reg_addr: u8) -> int {
    0x8000_0000 + bus * 0x1_0000 + device * 0x800 + function * 0x100 + (reg_addr - reg_addr % 4)
}

/// Computes the configuration address; see `spec_make_address`.
pub fn make_address(bus: u8, device: u8, function: u8, reg_addr: u8) -> (address: u32)
    requires
        device < DEVICES_PER_BUS,
        function < FUNCTIONS_PER_DEVICE,
    ensures
        address == spec_make_address(bus, device, function, reg_addr),
{
    let aligned: u32 = (reg_addr - reg_addr % 4) as u32;
    0x8000_0000u32 + (bus as u32) * 0x1_0000 + (device as u32) * 0x800 + (function as u32) * 0x100
        + aligned
}

/// Two registers share a configuration address only if they are the same
/// dword of the same function: an access to one never reaches another.
pub proof fn lemma_make_address_injective(
    bus1: u8,
    device1: u8,
    function1: u8,
    reg1: u8,
    bus2: u8,
    device2: u8,
    function2: u8,
    reg2: u8,
)
    requires
        device1 < DEVICES_PER_BUS,
        function1 < FUNCTIONS_PER_DEVICE,
        device2 < DEVICES_PER_BUS,
        function2 < FUNCTIONS_PER_DEVICE,
        spec_make_address(bus1, device1, function1, reg1) == spec_make_address(
            bus2,
            device2,
            function2,
            reg2,
        ),
    ensures
        bus1 == bus2,
        device1 == device2,
        function1 == function2,
        reg1 / 4 == reg2 / 4,
{
}

/// The fields of a configuration address can be read back from it.
pub proof fn lemma_make_address_fields(bus: u8, device: u8, function: u8, reg_addr: u8)
    requires
        device < DEVICES_PER_BUS,
        function < FUNCTIONS_PER_DEVICE,
    ensures
        0x8000_0000 <= spec_make_address(bus, device, function, reg_addr) < 0x8100_0000,
        (spec_make_address(bus, device, function, reg_addr) / 0x1_0000) % 0x100 == bus,
        (spec_make_address(bus, device, function, reg_addr) / 0x800) % 0x20 == device,
        (spec_make_address(bus, device, function, reg_addr) / 0x100) % 8 == function,
        spec_make_address(bus, device, function, reg_addr) % 0x100 == reg_addr - reg_addr % 4,
        spec_make_address(bus, device, function, reg_addr) % 4 == 0,
{
    let address = spec_make_address(bus, device, function, reg_addr);
    let offset = reg_addr - reg_addr % 4;
    lemma_fundamental_div_mod_converse(
        address,
        0x1_0000,
        0x8000 + bus,
        device * 0x800 + function * 0x100 + offset,
    );
    lemma_fundamental_div_mod_converse(0x8000 + bus, 0x100, 0x80, bus as int);
    lemma_fundamental_div_mod_converse(
        address,
        0x800,
        0x10_0000 + bus * 0x20 + device,
        function * 0x100 + offset,
    );
    lemma_fundamental_div_mod_converse(
        0x10_0000 + bus * 0x20 + device,
        0x20,
        0x8000 + bus,
        device as int,
    );
    lemma_fundamental_div_mod_converse(
        address,
        0x100,
        0x80_0000 + bus * 0x100 + device * 8 + function,
        offset,
    );
    lemma_fundamental_div_mod_converse(
        0x80_0000 + bus * 0x100 + device * 8 + function,
        8,
        0x10_0000 + bus * 0x20 + device,
        function as int,
    );
    lemma_fundamental_div_mod_converse(
        address,
        4,
        0x2000_0000 + bus * 0x4000 + device * 0x200 + function * 0x40 + reg_addr / 4,
        0,
    );
}

/// Vendor ID: the low half of the ID register.
pub fn vendor_id_of(id_reg: u32) -> (vendor: u16)
    ensures
        vendor == id_reg % 0x1_0000,
{
    (id_reg % 0x1_0000) as u16
}

/// Device ID: the high half of the ID register.
pub fn device_id_of(id_reg: u32) -> (device: u16)
    ensures
        device == id_reg / 0x1_0000,
{
    (id_reg / 0x1_0000) as u16
}

/// Header type: bits 16 to 23 of the register at `REG_HEADER_TYPE`.
pub fn header_type_of(header_reg: u32) -> (header_type: u8)
    ensures
        header_type == (header_reg / 0x1_0000) % 0x100,
{
    ((header_reg / 0x1_0000) % 0x100) as u8
}

/// Whether a header type denotes a device with a single function: bit 7 is
/// clear.
pub fn is_single_function_device(header_type: u8) -> (single: bool)
    ensures
        single == (header_type < 0x80),
{
    header_type < 0x80
}

/// Secondary bus of a PCI-to-PCI bridge: bits 8 to 15 of its bus number
/// register.
pub fn secondary_bus_of(bus_numbers_reg: u32) -> (bus: u8)
    ensures
        bus == (bus_numbers_reg / 0x100) % 0x100,
{
    ((bus_numbers_reg / 0x100) % 0x100) as u8
}

/// Base class, sub class and programming interface of a function.
#[derive(Clone, Copy, Debug, PartialEq, Eq, Structural)]
pub struct ClassCode {
    pub base: u8,
    pub sub: u8,
    pub interface: u8,
}

impl ClassCode {
    /// Decodes the class code register: base class in bits 24 to 31, sub
    /// class in bits 16 to 23, interface in bits 8 to 15.
    pub open spec fn spec_from_register(class_reg: u32) -> ClassCode {
        ClassCode {
            base: (class_reg / 0x100_0000) as u8,
            sub: ((class_reg / 0x1_0000) % 0x100) as u8,
            interface: ((class_reg / 0x100) % 0x100) as u8,
        }
    }

    /// Decodes the class code register; see `spec_from_register`.
    pub fn from_register(class_reg: u32) -> (code: ClassCode)
        ensures
            code == Self::spec_from_register(class_reg),
    {
        ClassCode {
            base: (class_reg / 0x100_0000) as u8,
            sub: ((class_reg / 0x1_0000) % 0x100) as u8,
            interface: ((class_reg / 0x100) % 0x100) as u8,
        }
    }

    /// The upper three bytes of the class code register that this code came
    /// from; the revision byte is zero.
    pub fn to_register(&self) -> (class_reg: u32)
        ensures
            class_reg == self.base * 0x100_0000 + self.sub * 0x1_0000 + self.interface * 0x100,
            Self::spec_from_register(class_reg) == *self,
    {
        let class_reg = (self.base as u32) * 0x100_0000 + (self.sub as u32) * 0x1_0000 + (
        self.interface as u32) * 0x100;
        proof {
            lemma_fundamental_div_mod_converse(
                class_reg as int,
                0x100_0000,
                self.base as int,
                self.sub * 0x1_0000 + self.interface * 0x100,
            );
            lemma_fundamental_div_mod_converse(
                class_reg as int,
                0x1_0000,
                self.base * 0x100 + self.sub,
                self.interface * 0x100,
            );
            lemma_fundamental_div_mod_converse(
                self.base * 0x100 + self.sub,
                0x100,
                self.base as int,
                self.sub as int,
            );
            lemma_fundamental_div_mod_converse(
                class_reg as int,
                0x100,
                self.base * 0x1_0000 + self.sub * 0x100 + self.interface,
                0,
            );
            lemma_fundamental_div_mod_converse(
                self.base * 0x1_0000 + self.sub * 0x100 + self.interface,
                0x100,
                self.base * 0x100 + self.sub,
                self.interface as int,
            );
        }
        class_reg
    }

    /// Whether the base class is `base`.
    pub fn matches_base(&self, base: u8) -> (m: bool)
        ensures
            m == (self.base == base),
    {
        self.base == base
    }

    /// Whether base class and sub class are `base` and `sub`, whatever the
    /// interface.
    pub fn matches_base_sub(&self, base: u8, sub: u8) -> (m: bool)
        ensures
            m == (self.base == base && self.sub == sub),
    {
        self.base == base && self.sub == sub
    }

    /// Whether this is exactly the triple `(base, sub, interface)`.
    pub fn matches(&self, base: u8, sub: u8, interface: u8) -> (m: bool)
        ensures
            m == (*self == ClassCode { base, sub, interface }),
            m == (self.base == base && self.sub == sub && self.interface == interface),
    {
        self.base == base && self.sub == sub && self.interface == interface
    }

    /// A PCI-to-PCI bridge: class 0x06, sub class 0x04.
    pub open spec fn spec_is_bridge(self) -> bool {
        self.base == 0x06 && self.sub == 0x04
    }

    /// A USB xHCI host controller: class 0x0c, sub class 0x03, interface 0x30.
    pub open spec fn spec_is_xhci(self) -> bool {
        self == ClassCode { base: 0x0c, sub: 0x03, interface: 0x30 }
    }

    /// A USB EHCI host controller: class 0x0c, sub class 0x03, interface 0x20.
    pub open spec fn spec_is_ehci(self) -> bool {
        self == ClassCode { base: 0x0c, sub: 0x03, interface: 0x20 }
    }

    /// Whether this is a PCI-to-PCI bridge.
    #[verifier::when_used_as_spec(spec_is_bridge)]
    pub fn is_bridge(self) -> (b: bool)
        ensures
            b == self.spec_is_bridge(),
    {
        self.matches_base_sub(0x06, 0x04)
    }

    /// Whether this is a USB xHCI host controller.
    #[verifier::when_used_as_spec(spec_is_xhci)]
    pub fn is_xhci(self) -> (b: bool)
        ensures
            b == self.spec_is_xhci(),
    {
        self.matches(0x0c, 0x03, 0x30)
    }

    /// Whether this is a USB EHCI host controller.
    #[verifier::when_used_as_spec(spec_is_ehci)]
    pub fn is_ehci(self) -> (b: bool)
        ensures
            b == self.spec_is_ehci(),
    {
        self.matches(0x0c, 0x03, 0x20)
    }
}

/// One function found on the bus, as it was when the bus was scanned.
#[derive(Clone, Copy, Debug, PartialEq, Eq, Structural)]
pub struct Device {
    pub bus: u8,
    pub device: u8,
    pub function: u8,
    pub vendor_id: u16,
    pub header_type: u8,
    pub class_code: ClassCode,
}

impl Device {
    /// Device and function numbers lie in the ranges the bus defines.
    pub open spec fn valid(&self) -> bool {
        self.device < DEVICES_PER_BUS && self.function < FUNCTIONS_PER_DEVICE
    }

    /// Configuration address of this function's register at `reg_addr`.
    pub open spec fn spec_conf_address(&self, reg_addr: u8) -> int {
        spec_make_address(self.bus, self.device, self.function, reg_addr)
    }

    /// Configuration address of this function's register at `reg_addr`.
    pub fn conf_address(&self, reg_addr: u8) -> (address: u32)
        requires
            self.valid(),
        ensures
            address == self.spec_conf_address(reg_addr),
    {
        make_address(self.bus, self.device, self.function, reg_addr)
    }

    /// An xHCI controller made by Intel.
    pub open spec fn is_intel_xhc(&self) -> bool {
        self.class_code.is_xhci() && self.vendor_id == VENDOR_INTEL
    }

    /// An EHCI controller made by Intel.
    pub open spec fn is_intel_ehc(&self) -> bool {
        self.class_code.is_ehci() && self.vendor_id == VENDOR_INTEL
    }
}

/// The devices found so far, in the order they were found: a fixed array of
/// `DEVICE_TABLE_CAPACITY` slots and a count. Its view is the sequence of
/// records in use.
pub struct DeviceTable {
    slots: Vec<Device>,
    count: usize,
}

impl View for DeviceTable {
    type V = Seq<Device>;

    closed spec fn view(&self) -> Seq<Device> {
        self.slots@.subrange(0, self.count as int)
    }
}

impl DeviceTable {
    #[verifier::type_invariant]
    closed spec fn inv(&self) -> bool {
        &&& self.slots.len() == DEVICE_TABLE_CAPACITY
        &&& self.count <= DEVICE_TABLE_CAPACITY
        &&& forall|i: int| 0 <= i < self.count ==> (#[trigger] self.slots@[i]).valid()
    }

    /// Every record is valid and the capacity is kept.
    pub open spec fn well_formed(table: Seq<Device>) -> bool {
        &&& table.len() <= DEVICE_TABLE_CAPACITY
        &&& forall|i: int| 0 <= i < table.len() ==> (#[trigger] table[i]).valid()
    }

    /// An empty table.
    pub fn new() -> (table: Self)
        ensures
            table@ == Seq::<Device>::empty(),
    {
        let unused = Device {
            bus: 0,
            device: 0,
            function: 0,
            vendor_id: VENDOR_NONE,
            header_type: 0,
            class_code: ClassCode { base: 0, sub: 0, interface: 0 },
        };
        let table = DeviceTable { slots: vec![unused; DEVICE_TABLE_CAPACITY], count: 0 };
        assert(table@ =~= Seq::<Device>::empty());
        table
    }

    /// Number of records in the table; never more than its capacity.
    pub fn len(&self) -> (n: usize)
        ensures
            n == self@.len(),
            n <= DEVICE_TABLE_CAPACITY,
            Self::well_formed(self@),
    {
        proof {
            use_type_invariant(self);
        }
        self.count
    }

    /// The record at `index`, or `None` past the end.
    pub fn get(&self, index: usize) -> (d: Option<Device>)
        ensures
            d == if index < self@.len() { Some(self@[index as int]) } else { None::<Device> },
            d matches Some(dev) ==> dev.valid(),
    {
        proof {
            use_type_invariant(self);
        }
        if index < self.count {
            Some(self.slots[index])
        } else {
            None
        }
    }

    /// Appends a record, or fails with `Error::Full` and leaves the table as
    /// it was when it already holds `DEVICE_TABLE_CAPACITY` records.
    pub fn add_device(&mut self, device: Device) -> (r: Result<(), Error>)
        requires
            device.valid(),
        ensures
            r is Ok <==> old(self)@.len() < DEVICE_TABLE_CAPACITY,
            r is Ok ==> final(self)@ == old(self)@.push(device),
            r is Err ==> r == Err::<(), Error>(Error::Full) && final(self)@ == old(self)@,
    {
        proof {
            use_type_invariant(&*self);
        }
        if self.count >= DEVICE_TABLE_CAPACITY {
            return Err(Error::Full);
        }
        let index = self.count;
        self.slots[index] = device;
        self.count = index + 1;
        assert(self@ =~= old(self)@.push(device));
        Ok(())
    }
}

} // verus!
