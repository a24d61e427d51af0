//! Decisions of the kernel proper: the order of the boot sequence, which
//! host controller to drive, how to take its ports over from a companion
//! controller, and the turns of the main loop.

use crate::interrupt::Message;
use crate::pci::config::{dword_index, ConfigSpace, RegisterWrite};
use crate::pci::{Device, DeviceTable, VENDOR_INTEL};
use crate::queue::ArrayQueue;
use vstd::prelude::*;

verus! {

/// Register of an Intel xHC that routes USB 3 ports to it.
pub const REG_USB3_PSSEN: u8 = 0xd8;

/// Register of an Intel xHC that tells which USB 3 ports can be routed.
pub const REG_USB3PRM: u8 = 0xdc;

/// Register of an Intel xHC that routes USB 2 ports to it.
pub const REG_XUSB2PR: u8 = 0xd0;

/// Register of an Intel xHC that tells which USB 2 ports can be routed.
pub const REG_XUSB2PRM: u8 = 0xd4;

/// `index` is the first position of `devices` that holds an xHCI controller.
pub open spec fn is_first_xhc(devices: Seq<Device>, index: int) -> bool {
    &&& 0 <= index < devices.len()
    &&& devices[index].class_code.is_xhci()
    &&& forall|j: int| 0 <= j < index ==> !(#[trigger] devices[j]).class_code.is_xhci()
}

/// `index` is the first position of `devices` that holds an xHCI controller
/// made by Intel.
pub open spec fn is_first_intel_xhc(devices: Seq<Device>, index: int) -> bool {
    &&& 0 <= index < devices.len()
    &&& devices[index].is_intel_xhc()
    &&& forall|j: int| 0 <= j < index ==> !(#[trigger] devices[j]).is_intel_xhc()
}

/// Some device of `devices` is an xHCI controller.
pub open spec fn has_xhc(devices: Seq<Device>) -> bool {
    exists|i: int| 0 <= i < devices.len() && (#[trigger] devices[i]).class_code.is_xhci()
}

/// Some device of `devices` is an xHCI controller made by Intel.
pub open spec fn has_intel_xhc(devices: Seq<Device>) -> bool {
    exists|i: int| 0 <= i < devices.len() && (#[trigger] devices[i]).is_intel_xhc()
}

/// Some device of `devices` is an EHCI controller made by Intel.
pub open spec fn has_intel_ehc(devices: Seq<Device>) -> bool {
    exists|i: int| 0 <= i < devices.len() && (#[trigger] devices[i]).is_intel_ehc()
}

/// `chosen` is the host controller to drive: the first Intel xHC where the
/// table holds one, else the first xHC, else none.
pub open spec fn is_selected_xhc(devices: Seq<Device>, chosen: Option<Device>) -> bool {
    match chosen {
        None => !has_xhc(devices),
        Some(device) => if has_intel_xhc(devices) {
            exists|i: int| is_first_intel_xhc(devices, i) && devices[i] == device
        } else {
            exists|i: int| is_first_xhc(devices, i) && devices[i] == device
        },
    }
}

/// The selection is unique: two answers that both meet `is_selected_xhc`
/// are the same.
pub proof fn lemma_selected_xhc_unique(devices: Seq<Device>, a: Option<Device>, b: Option<Device>)
    requires
        is_selected_xhc(devices, a),
        is_selected_xhc(devices, b),
    ensures
        a == b,
{
    if a is Some && b is Some {
        if has_intel_xhc(devices) {
            let i = choose|i: int| is_first_intel_xhc(devices, i) && devices[i] == a->0;
            let j = choose|j: int| is_first_intel_xhc(devices, j) && devices[j] == b->0;
            assert(i == j) by {
                if i < j {
                    assert(devices[i].is_intel_xhc());
                } else if j < i {
                    assert(devices[j].is_intel_xhc());
                }
            }
        } else {
            let i = choose|i: int| is_first_xhc(devices, i) && devices[i] == a->0;
            let j = choose|j: int| is_first_xhc(devices, j) && devices[j] == b->0;
            assert(i == j) by {
                if i < j {
                    assert(devices[i].class_code.is_xhci());
                } else if j < i {
                    assert(devices[j].class_code.is_xhci());
                }
            }
        }
    } else if a is Some {
        if has_intel_xhc(devices) {
            let i = choose|i: int| is_first_intel_xhc(devices, i) && devices[i] == a->0;
            assert(devices[i].class_code.is_xhci());
        } else {
            let i = choose|i: int| is_first_xhc(devices, i) && devices[i] == a->0;
            assert(devices[i].class_code.is_xhci());
        }
    } else if b is Some {
        if has_intel_xhc(devices) {
            let j = choose|j: int| is_first_intel_xhc(devices, j) && devices[j] == b->0;
            assert(devices[j].class_code.is_xhci());
        } else {
            let j = choose|j: int| is_first_xhc(devices, j) && devices[j] == b->0;
            assert(devices[j].class_code.is_xhci());
        }
    }
}

/// Picks the xHCI controller to drive, preferring one made by Intel wherever
/// it stands in the table.
pub fn select_xhc(devices: &DeviceTable) -> (chosen: Option<Device>)
    ensures
        is_selected_xhc(devices@, chosen),
        chosen matches Some(device) ==> device.valid() && device.class_code.is_xhci(),
{
    let count = devices.len();
    let mut first: Option<Device> = None;
    let mut i: usize = 0;
    while i < count
        invariant
            i <= count,
            count == devices@.len(),
            forall|j: int| 0 <= j < i ==> !(#[trigger] devices@[j]).is_intel_xhc(),
            first is None ==> forall|j: int|
                0 <= j < i ==> !(#[trigger] devices@[j]).class_code.is_xhci(),
            first matches Some(device) ==> device.valid() && exists|k: int|
                k < i && is_first_xhc(devices@, k) && devices@[k] == device,
        decreases count - i,
    {
        let found = devices.get(i);
        match found {
            Some(device) => {
                if device.class_code.is_xhci() {
                    if device.vendor_id == VENDOR_INTEL {
                        assert(is_first_intel_xhc(devices@, i as int));
                        return Some(device);
                    }
                    if first.is_none() {
                        assert(is_first_xhc(devices@, i as int));
                        first = Some(device);
                    }
                }
            },
            None => {},
        }
        i = i + 1;
    }
    assert(!has_intel_xhc(devices@));
    first
}

/// The writes that hand the ports of an Intel chipset over from its EHCI
/// controller to the xHC whose registers are `xhc_regs`: every port that
/// can be routed is routed, USB 3 first. Nothing is written unless the
/// table holds an Intel EHCI controller.
pub open spec fn spec_switch_ehci2xhci(devices: Seq<Device>, xhc_regs: Seq<u32>) -> Seq<
    RegisterWrite,
> {
    if has_intel_ehc(devices) {
        seq![
            RegisterWrite { reg_addr: REG_USB3_PSSEN, value: xhc_regs[dword_index(REG_USB3PRM)] },
            RegisterWrite { reg_addr: REG_XUSB2PR, value: xhc_regs[dword_index(REG_XUSB2PRM)] },
        ]
    } else {
        Seq::<RegisterWrite>::empty()
    }
}

/// Computes the writes that hand the ports over; see `spec_switch_ehci2xhci`.
pub fn switch_ehci2xhci(devices: &DeviceTable, xhc_regs: &ConfigSpace) -> (writes: Vec<
    RegisterWrite,
>)
    ensures
        writes@ == spec_switch_ehci2xhci(devices@, xhc_regs@),
{
    let count = devices.len();
    let mut intel_ehc_exist = false;
    let mut i: usize = 0;
    while i < count
        invariant_except_break
            !intel_ehc_exist,
            forall|j: int| 0 <= j < i ==> !(#[trigger] devices@[j]).is_intel_ehc(),
        invariant
            i <= count,
            count == devices@.len(),
        ensures
            intel_ehc_exist == has_intel_ehc(devices@),
        decreases count - i,
    {
        let found = devices.get(i);
        match found {
            Some(device) => {
                if device.class_code.is_ehci() && device.vendor_id == VENDOR_INTEL {
                    intel_ehc_exist = true;
                    assert(devices@[i as int].is_intel_ehc());
                    break ;
                }
            },
            None => {},
        }
        i = i + 1;
    }
    let mut writes: Vec<RegisterWrite> = Vec::new();
    if !intel_ehc_exist {
        assert(writes@ =~= spec_switch_ehci2xhci(devices@, xhc_regs@));
        return writes;
    }
    let superspeed_ports = xhc_regs.read_conf_reg(REG_USB3PRM);
    writes.push(RegisterWrite { reg_addr: REG_USB3_PSSEN, value: superspeed_ports });
    let ehci2xhci_ports = xhc_regs.read_conf_reg(REG_XUSB2PRM);
    writes.push(RegisterWrite { reg_addr: REG_XUSB2PR, value: ehci2xhci_ports });
    assert(writes@ =~= spec_switch_ehci2xhci(devices@, xhc_regs@));
    writes
}

/// What the processor is to do next in the main loop.
#[derive(Clone, Copy, Debug, PartialEq, Eq, Structural)]
pub enum CpuAction {
    /// Mask interrupts.
    DisableInterrupts,
    /// Unmask interrupts and halt until the next one arrives, as one step,
    /// so that no interrupt can slip in between.
    EnableInterruptsAndHalt,
    /// Unmask interrupts.
    EnableInterrupts,
    /// Act on a message that was taken from the queue.
    Dispatch(Message),
}

/// Where the main loop stands within one turn.
#[derive(Clone, Copy, Debug, PartialEq, Eq, Structural)]
pub enum LoopPhase {
    /// At the start of a turn; interrupts are unmasked.
    Unmasked,
    /// Interrupts are masked; the queue is to be looked at.
    Masked,
    /// A message was taken and interrupts are unmasked again; the message
    /// is to be acted on.
    Taken(Message),
}

impl LoopPhase {
    /// Whether interrupts are unmasked in this phase.
    pub open spec fn interrupts_enabled(self) -> bool {
        self != LoopPhase::Masked
    }
}

/// One step of the main loop: the phase and the queue that follow, and the
/// action to take. A turn masks interrupts, looks at the queue, and either
/// halts with interrupts unmasked when the queue is empty, or takes the
/// oldest message, unmasks interrupts and then acts on the message.
pub open spec fn main_loop_step(phase: LoopPhase, queue: Seq<Message>) -> (
    LoopPhase,
    Seq<Message>,
    CpuAction,
) {
    match phase {
        LoopPhase::Unmasked => (LoopPhase::Masked, queue, CpuAction::DisableInterrupts),
        LoopPhase::Masked => if queue.len() == 0 {
            (LoopPhase::Unmasked, queue, CpuAction::EnableInterruptsAndHalt)
        } else {
            (
                LoopPhase::Taken(queue[0]),
                queue.subrange(1, queue.len() as int),
                CpuAction::EnableInterrupts,
            )
        },
        LoopPhase::Taken(message) => (LoopPhase::Unmasked, queue, CpuAction::Dispatch(message)),
    }
}

/// The queue is touched only while interrupts are masked, and interrupts
/// are masked for one step only.
pub proof fn lemma_queue_touched_only_when_masked(phase: LoopPhase, queue: Seq<Message>)
    ensures
        phase.interrupts_enabled() ==> main_loop_step(phase, queue).1 == queue,
        !phase.interrupts_enabled() ==> main_loop_step(phase, queue).0.interrupts_enabled(),
        main_loop_step(phase, queue).2 == CpuAction::DisableInterrupts <==> phase
            == LoopPhase::Unmasked,
{
}

/// A turn on an empty queue: interrupts are masked once and unmasked once,
/// the processor halts, and the queue is as it was.
pub proof fn lemma_idle_turn(queue: Seq<Message>)
    requires
        queue.len() == 0,
    ensures
        ({
            let first = main_loop_step(LoopPhase::Unmasked, queue);
            let second = main_loop_step(first.0, first.1);
            &&& first.2 == CpuAction::DisableInterrupts
            &&& second.2 == CpuAction::EnableInterruptsAndHalt
            &&& second.0 == LoopPhase::Unmasked
            &&& second.1 == queue
        }),
{
}

/// A turn on a queue that holds a message: interrupts are masked once and
/// unmasked once, and the oldest message, and no other, is taken and acted
/// on.
pub proof fn lemma_busy_turn(queue: Seq<Message>)
    requires
        queue.len() > 0,
    ensures
        ({
            let first = main_loop_step(LoopPhase::Unmasked, queue);
            let second = main_loop_step(first.0, first.1);
            let third = main_loop_step(second.0, second.1);
            &&& first.2 == CpuAction::DisableInterrupts
            &&& second.2 == CpuAction::EnableInterrupts
            &&& third.2 == CpuAction::Dispatch(queue[0])
            &&& third.0 == LoopPhase::Unmasked
            &&& third.1 == queue.subrange(1, queue.len() as int)
        }),
{
}

/// The main loop's place within its turn.
pub struct MainLoop {
    phase: LoopPhase,
}

impl View for MainLoop {
    type V = LoopPhase;

    closed spec fn view(&self) -> LoopPhase {
        self.phase
    }
}

impl MainLoop {
    /// A loop at the start of its first turn.
    pub fn new() -> (main_loop: Self)
        ensures
            main_loop@ == LoopPhase::Unmasked,
    {
        MainLoop { phase: LoopPhase::Unmasked }
    }

    /// The phase the loop is in.
    pub fn phase(&self) -> (phase: LoopPhase)
        ensures
            phase == self@,
    {
        self.phase
    }

    /// Takes one step and tells what the processor is to do; see
    /// `main_loop_step`.
    pub fn step(&mut self, main_queue: &mut ArrayQueue<Message>) -> (action: CpuAction)
        ensures
            final(self)@ == main_loop_step(old(self)@, old(main_queue)@).0,
            final(main_queue)@ == main_loop_step(old(self)@, old(main_queue)@).1,
            action == main_loop_step(old(self)@, old(main_queue)@).2,
            final(main_queue).spec_capacity() == old(main_queue).spec_capacity(),
    {
        match self.phase {
            LoopPhase::Unmasked => {
                self.phase = LoopPhase::Masked;
                CpuAction::DisableInterrupts
            },
            LoopPhase::Masked => {
                match main_queue.pop() {
                    None => {
                        self.phase = LoopPhase::Unmasked;
                        CpuAction::EnableInterruptsAndHalt
                    },
                    Some(message) => {
                        self.phase = LoopPhase::Taken(message);
                        CpuAction::EnableInterrupts
                    },
                }
            },
            LoopPhase::Taken(message) => {
                self.phase = LoopPhase::Unmasked;
                CpuAction::Dispatch(message)
            },
        }
    }
}

/// The steps of the boot sequence, in their order.
#[derive(Clone, Copy, Debug, PartialEq, Eq, Structural)]
pub enum BootStage {
    /// Set up the frame buffer writer and draw the desktop.
    FrameBuffer,
    /// Set up the console and print the banner.
    Console,
    /// List the usable memory.
    MemoryMap,
    /// Show the mouse cursor.
    MouseCursor,
    /// Set up the message queue.
    MessageQueue,
    /// Scan the PCI bus.
    ScanBus,
    /// Pick the xHCI controller.
    SelectController,
    /// Fill and load the interrupt descriptor table.
    InterruptTable,
    /// Route the controller's interrupt by MSI.
    ConfigureMsi,
    /// Take the ports over from a companion controller.
    HandOverPorts,
    /// Reset and program the controller.
    InitializeController,
    /// Set the controller running.
    RunController,
    /// Start the configuration of every port with a device.
    ConfigurePorts,
    /// Serve messages, for ever.
    MainLoop,
}

impl BootStage {
    /// The stage's place in the order.
    pub open spec fn spec_ordinal(self) -> nat {
        match self {
            BootStage::FrameBuffer => 0,
            BootStage::Console => 1,
            BootStage::MemoryMap => 2,
            BootStage::MouseCursor => 3,
            BootStage::MessageQueue => 4,
            BootStage::ScanBus => 5,
            BootStage::SelectController => 6,
            BootStage::InterruptTable => 7,
            BootStage::ConfigureMsi => 8,
            BootStage::HandOverPorts => 9,
            BootStage::InitializeController => 10,
            BootStage::RunController => 11,
            BootStage::ConfigurePorts => 12,
            BootStage::MainLoop => 13,
        }
    }

    /// The stage with which the boot sequence begins.
    pub fn first() -> (stage: Self)
        ensures
            stage.spec_ordinal() == 0,
    {
        BootStage::FrameBuffer
    }

    /// The stage that follows. The main loop is never left.
    pub fn next(self) -> (stage: Self)
        ensures
            self != BootStage::MainLoop ==> stage.spec_ordinal() == self.spec_ordinal() + 1,
            self == BootStage::MainLoop ==> stage == BootStage::MainLoop,
    {
        match self {
            BootStage::FrameBuffer => BootStage::Console,
            BootStage::Console => BootStage::MemoryMap,
            BootStage::MemoryMap => BootStage::MouseCursor,
            BootStage::MouseCursor => BootStage::MessageQueue,
            BootStage::MessageQueue => BootStage::ScanBus,
            BootStage::ScanBus => BootStage::SelectController,
            BootStage::SelectController => BootStage::InterruptTable,
            BootStage::InterruptTable => BootStage::ConfigureMsi,
            BootStage::ConfigureMsi => BootStage::HandOverPorts,
            BootStage::HandOverPorts => BootStage::InitializeController,
            BootStage::InitializeController => BootStage::RunController,
            BootStage::RunController => BootStage::ConfigurePorts,
            BootStage::ConfigurePorts => BootStage::MainLoop,
            BootStage::MainLoop => BootStage::MainLoop,
        }
    }
}

/// The order that the hardware asks for: the interrupt table is loaded
/// before the controller's interrupt is routed, the interrupt is routed and
/// the ports are handed over before the controller is initialized, and the
/// queue exists before anything can interrupt.
pub proof fn lemma_boot_order()
    ensures
        BootStage::MessageQueue.spec_ordinal() < BootStage::InterruptTable.spec_ordinal(),
        BootStage::InterruptTable.spec_ordinal() < BootStage::ConfigureMsi.spec_ordinal(),
        BootStage::ConfigureMsi.spec_ordinal() < BootStage::InitializeController.spec_ordinal(),
        BootStage::HandOverPorts.spec_ordinal() < BootStage::InitializeController.spec_ordinal(),
        BootStage::InitializeController.spec_ordinal() < BootStage::RunController.spec_ordinal(),
        BootStage::RunController.spec_ordinal() < BootStage::ConfigurePorts.spec_ordinal(),
        BootStage::ConfigurePorts.spec_ordinal() < BootStage::MainLoop.spec_ordinal(),
{
}

/// Whether the ports have to be handed over to the chosen controller: only
/// a controller made by Intel has the registers for it.
pub fn needs_port_handover(xhc_dev: &Device) -> (needed: bool)
    ensures
        needed == (xhc_dev.vendor_id == VENDOR_INTEL),
{
    xhc_dev.vendor_id == VENDOR_INTEL
}

} // verus!
