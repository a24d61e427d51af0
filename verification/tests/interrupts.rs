use mikan_os::interrupt::{
    int_handler_xhci, local_apic_id_of, notify_end_of_interrupt, DescriptorType, EndOfInterrupt,
    InterruptDescriptor, InterruptDescriptorAttribute, InterruptDescriptorTable, InterruptVector,
    Message, MessageType,
};
use mikan_os::kernel::{BootStage, CpuAction, LoopPhase, MainLoop};
use mikan_os::queue::ArrayQueue;

#[test]
fn attribute_word_packs_type_level_and_presence() {
    let gate = InterruptDescriptorAttribute::new(DescriptorType::InterruptGate, 0, true);
    assert_eq!(gate.data, 0x8e00);
    assert!(gate.is_present());
    assert_eq!(InterruptDescriptorAttribute::new(DescriptorType::TrapGate, 3, true).data, 0xef00);
    assert_eq!(InterruptDescriptorAttribute::new(DescriptorType::CallGate, 1, false).data, 0x2c00);
    assert_eq!(InterruptDescriptorAttribute::new(DescriptorType::Upper8Bytes, 0, false).data, 0);
    assert!(!InterruptDescriptorAttribute::new(DescriptorType::LDT, 2, false).is_present());
    assert_eq!(DescriptorType::LDT.code(), 2);
    assert_eq!(DescriptorType::TSSAvailable.code(), 9);
    assert_eq!(DescriptorType::TSSBusy.code(), 11);
}

#[test]
fn descriptor_splits_the_handler_address() {
    let mut descriptor = InterruptDescriptor::const_default();
    assert_eq!(descriptor.to_words(), (0, 0));
    assert!(!descriptor.attr.is_present());
    let attr = InterruptDescriptorAttribute::new(DescriptorType::InterruptGate, 0, true);
    descriptor.set_idt_entry(attr, 0x1234_5678_9abc_def0, 0x0008);
    assert_eq!(descriptor.offset_low, 0xdef0);
    assert_eq!(descriptor.offset_middle, 0x9abc);
    assert_eq!(descriptor.offset_high, 0x1234_5678);
    assert_eq!(descriptor.segment_selector, 0x0008);
    assert_eq!(descriptor.attr, attr);
    assert_eq!(descriptor.reserved, 0);
    assert_eq!(descriptor.handler_offset(), 0x1234_5678_9abc_def0);
    assert_eq!(descriptor.to_words(), (0x9abc_8e00_0008_def0, 0x0000_0000_1234_5678));
}

#[test]
fn table_routes_one_vector_and_leaves_the_others() {
    let mut table = InterruptDescriptorTable::new();
    assert_eq!(table.limit(), 4095);
    assert_eq!(InterruptVector::XHCI.number(), 0x40);
    let attr = InterruptDescriptorAttribute::new(DescriptorType::InterruptGate, 0, true);
    table.set_idt_entry(InterruptVector::XHCI.number(), attr, 0xffff_8000_0010_2030, 0x10);
    for vector in 0..=255u8 {
        let entry = table.entry(vector);
        if vector == 0x40 {
            assert!(entry.attr.is_present());
            assert_eq!(entry.handler_offset(), 0xffff_8000_0010_2030);
            assert_eq!(entry.segment_selector, 0x10);
        } else {
            assert_eq!(entry, InterruptDescriptor::const_default());
            assert!(!entry.attr.is_present());
        }
    }
}

#[test]
fn local_apic_id_is_the_top_byte() {
    assert_eq!(local_apic_id_of(0x0300_0000), 3);
    assert_eq!(local_apic_id_of(0xff12_3456), 0xff);
    assert_eq!(local_apic_id_of(0x00ff_ffff), 0);
}

#[test]
fn interrupt_handler_queues_one_notice() {
    let mut queue = ArrayQueue::new(vec![Message::new(MessageType::InterruptXHCI); 2]);
    let ack = int_handler_xhci(&mut queue);
    assert_eq!(ack, EndOfInterrupt { register: 0xfee0_00b0, value: 0 });
    assert_eq!(ack, notify_end_of_interrupt());
    assert_eq!(queue.len(), 1);
    assert_eq!(queue.front().unwrap().message_type(), MessageType::InterruptXHCI);
}

#[test]
fn interrupt_handler_drops_the_notice_when_the_queue_is_full() {
    let mut queue = ArrayQueue::new(vec![Message::new(MessageType::InterruptXHCI); 2]);
    let _ = int_handler_xhci(&mut queue);
    let _ = int_handler_xhci(&mut queue);
    assert_eq!(queue.len(), 2);
    let ack = int_handler_xhci(&mut queue);
    assert_eq!(ack, EndOfInterrupt { register: 0xfee0_00b0, value: 0 });
    assert_eq!(queue.len(), 2);
}

#[test]
fn idle_loop_masks_once_halts_and_sees_one_message_after_an_interrupt() {
    let mut queue = ArrayQueue::new(vec![Message::new(MessageType::InterruptXHCI); 32]);
    let mut main_loop = MainLoop::new();
    assert_eq!(main_loop.phase(), LoopPhase::Unmasked);
    assert_eq!(main_loop.step(&mut queue), CpuAction::DisableInterrupts);
    assert_eq!(main_loop.phase(), LoopPhase::Masked);
    assert_eq!(main_loop.step(&mut queue), CpuAction::EnableInterruptsAndHalt);
    assert_eq!(main_loop.phase(), LoopPhase::Unmasked);
    assert_eq!(queue.len(), 0);

    // The interrupt fires while the processor is halted.
    let _ = int_handler_xhci(&mut queue);
    assert_eq!(queue.len(), 1);

    assert_eq!(main_loop.step(&mut queue), CpuAction::DisableInterrupts);
    assert_eq!(queue.len(), 1);
    assert_eq!(main_loop.step(&mut queue), CpuAction::EnableInterrupts);
    assert_eq!(queue.len(), 0);
    assert_eq!(
        main_loop.step(&mut queue),
        CpuAction::Dispatch(Message::new(MessageType::InterruptXHCI))
    );
    assert_eq!(main_loop.phase(), LoopPhase::Unmasked);

    assert_eq!(main_loop.step(&mut queue), CpuAction::DisableInterrupts);
    assert_eq!(main_loop.step(&mut queue), CpuAction::EnableInterruptsAndHalt);
}

#[test]
fn main_loop_takes_one_message_per_turn() {
    let mut queue = ArrayQueue::new(vec![Message::new(MessageType::InterruptXHCI); 4]);
    for _ in 0..3 {
        let _ = int_handler_xhci(&mut queue);
    }
    let mut main_loop = MainLoop::new();
    for left in [2usize, 1, 0] {
        assert_eq!(main_loop.step(&mut queue), CpuAction::DisableInterrupts);
        assert_eq!(main_loop.step(&mut queue), CpuAction::EnableInterrupts);
        assert_eq!(queue.len(), left);
        assert!(matches!(main_loop.step(&mut queue), CpuAction::Dispatch(_)));
    }
    assert_eq!(main_loop.step(&mut queue), CpuAction::DisableInterrupts);
    assert_eq!(main_loop.step(&mut queue), CpuAction::EnableInterruptsAndHalt);
}

#[test]
fn boot_stages_follow_in_order() {
    let order = [
        BootStage::FrameBuffer,
        BootStage::Console,
        BootStage::MemoryMap,
        BootStage::MouseCursor,
        BootStage::MessageQueue,
        BootStage::ScanBus,
        BootStage::SelectController,
        BootStage::InterruptTable,
        BootStage::ConfigureMsi,
        BootStage::HandOverPorts,
        BootStage::InitializeController,
        BootStage::RunController,
        BootStage::ConfigurePorts,
        BootStage::MainLoop,
    ];
    let mut stage = BootStage::first();
    for expected in order {
        assert_eq!(stage, expected);
        stage = stage.next();
    }
    assert_eq!(stage, BootStage::MainLoop);
    assert_eq!(BootStage::MainLoop.next(), BootStage::MainLoop);
}
