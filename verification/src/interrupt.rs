//! Interrupt descriptors, the descriptor table, and the message that the
//! interrupt handler leaves for the main loop.

use crate::queue::{queue_step, ArrayQueue, QueueOp};
use vstd::arithmetic::div_mod::lemma_fundamental_div_mod_converse;
use vstd::prelude::*;

verus! {

/// Number of vectors, and of slots in the descriptor table.
pub const IDT_ENTRIES: usize = 256;

/// Size of one descriptor in bytes.
pub const DESCRIPTOR_SIZE: usize = 16;

/// Address of the local APIC's end-of-interrupt register.
pub const END_OF_INTERRUPT_REGISTER: u64 = 0xfee0_00b0;

/// Address of the local APIC's ID register.
pub const LOCAL_APIC_ID_REGISTER: u64 = 0xfee0_0020;

/// The vectors this kernel routes.
#[derive(Clone, Copy, Debug, PartialEq, Eq, Structural)]
pub enum InterruptVector {
    XHCI,
}

impl InterruptVector {
    /// The vector's number.
    pub open spec fn spec_number(self) -> u8 {
        match self {
            InterruptVector::XHCI => 0x40,
        }
    }

    /// The vector's number, which is its index in the descriptor table.
    #[verifier::when_used_as_spec(spec_number)]
    pub fn number(self) -> (n: u8)
        ensures
            n == self.spec_number(),
    {
        match self {
            InterruptVector::XHCI => 0x40,
        }
    }
}

/// The kinds of system descriptor.
#[derive(Clone, Copy, Debug, PartialEq, Eq, Structural)]
pub enum DescriptorType {
    Upper8Bytes,
    LDT,
    TSSAvailable,
    TSSBusy,
    CallGate,
    InterruptGate,
    TrapGate,
}

impl DescriptorType {
    /// The four-bit code of the type.
    pub open spec fn spec_code(self) -> u8 {
        match self {
            DescriptorType::Upper8Bytes => 0,
            DescriptorType::LDT => 2,
            DescriptorType::TSSAvailable => 9,
            DescriptorType::TSSBusy => 11,
            DescriptorType::CallGate => 12,
            DescriptorType::InterruptGate => 14,
            DescriptorType::TrapGate => 15,
        }
    }

    /// The four-bit code of the type in a descriptor.
    #[verifier::when_used_as_spec(spec_code)]
    pub fn code(self) -> (c: u8)
        ensures
            c == self.spec_code(),
            c < 16,
    {
        match self {
            DescriptorType::Upper8Bytes => 0,
            DescriptorType::LDT => 2,
            DescriptorType::TSSAvailable => 9,
            DescriptorType::TSSBusy => 11,
            DescriptorType::CallGate => 12,
            DescriptorType::InterruptGate => 14,
            DescriptorType::TrapGate => 15,
        }
    }
}

/// The attribute word of a descriptor: interrupt stack table index in bits
/// 0 to 2, type in bits 8 to 11, privilege level in bits 13 and 14, present
/// flag in bit 15.
#[derive(Clone, Copy, Debug, PartialEq, Eq, Structural)]
pub struct InterruptDescriptorAttribute {
    pub data: u16,
}

impl InterruptDescriptorAttribute {
    /// The word for a descriptor of the given type, privilege level and
    /// presence that uses no interrupt stack table.
    pub open spec fn spec_new(
        descriptor_type: DescriptorType,
        descriptor_privilege_level: u8,
        present: bool,
    ) -> InterruptDescriptorAttribute {
        InterruptDescriptorAttribute {
            data: (descriptor_type.code() * 0x100 + descriptor_privilege_level * 0x2000 + if present {
                0x8000int
            } else {
                0int
            }) as u16,
        }
    }

    /// Builds the attribute word; see `spec_new`. The fields read back from it
    /// are the ones it was built from.
    pub fn new(descriptor_type: DescriptorType, descriptor_privilege_level: u8, present: bool) -> (attr:
        Self)
        requires
            descriptor_privilege_level <= 3,
        ensures
            attr == Self::spec_new(descriptor_type, descriptor_privilege_level, present),
            attr.type_code() == descriptor_type.code(),
            attr.privilege_level() == descriptor_privilege_level,
            attr.present() == present,
            attr.interrupt_stack_table() == 0,
    {
        let flag: u16 = if present {
            0x8000
        } else {
            0
        };
        let data: u16 = (descriptor_type.code() as u16) * 0x100 + (
        descriptor_privilege_level as u16) * 0x2000 + flag;
        proof {
            let t = descriptor_type.code() as int;
            let l = descriptor_privilege_level as int;
            let p = if present {
                1int
            } else {
                0int
            };
            lemma_fundamental_div_mod_converse(data as int, 0x100, t + l * 0x20 + p * 0x80, 0);
            lemma_fundamental_div_mod_converse(t + l * 0x20 + p * 0x80, 0x10, l * 2 + p * 8, t);
            lemma_fundamental_div_mod_converse(data as int, 0x2000, l + p * 4, t * 0x100);
            lemma_fundamental_div_mod_converse(l + p * 4, 4, p, l);
            lemma_fundamental_div_mod_converse(data as int, 8, t * 0x20 + l * 0x400 + p * 0x1000, 0);
        }
        InterruptDescriptorAttribute { data }
    }

    /// Type code: bits 8 to 11.
    pub open spec fn type_code(self) -> u8 {
        ((self.data / 0x100) % 0x10) as u8
    }

    /// Privilege level: bits 13 and 14.
    pub open spec fn privilege_level(self) -> u8 {
        ((self.data / 0x2000) % 4) as u8
    }

    /// Present flag: bit 15.
    pub open spec fn present(self) -> bool {
        self.data >= 0x8000
    }

    /// Interrupt stack table index: bits 0 to 2.
    pub open spec fn interrupt_stack_table(self) -> u8 {
        (self.data % 8) as u8
    }

    /// Whether the descriptor is in use.
    pub fn is_present(&self) -> (p: bool)
        ensures
            p == self.present(),
    {
        self.data >= 0x8000
    }
}

/// One slot of the interrupt descriptor table.
#[derive(Clone, Copy, Debug, PartialEq, Eq, Structural)]
pub struct InterruptDescriptor {
    pub offset_low: u16,
    pub segment_selector: u16,
    pub attr: InterruptDescriptorAttribute,
    pub offset_middle: u16,
    pub offset_high: u32,
    pub reserved: u32,
}

impl InterruptDescriptor {
    /// The descriptor of a vector that is not routed: all zero, hence not
    /// present.
    pub open spec fn spec_default() -> InterruptDescriptor {
        InterruptDescriptor {
            offset_low: 0,
            segment_selector: 0,
            attr: InterruptDescriptorAttribute { data: 0 },
            offset_middle: 0,
            offset_high: 0,
            reserved: 0,
        }
    }

    /// The descriptor of a vector that is not routed.
    pub fn const_default() -> (descriptor: Self)
        ensures
            descriptor == Self::spec_default(),
            !descriptor.attr.present(),
    {
        InterruptDescriptor {
            offset_low: 0,
            segment_selector: 0,
            attr: InterruptDescriptorAttribute { data: 0 },
            offset_middle: 0,
            offset_high: 0,
            reserved: 0,
        }
    }

    /// The handler address that the three offset fields hold together.
    pub open spec fn offset(self) -> int {
        self.offset_low + self.offset_middle * 0x1_0000 + self.offset_high * 0x1_0000_0000
    }

    /// The descriptor that routes a vector to the handler at `offset` in
    /// the code segment `segment_selector`.
    pub open spec fn spec_entry(
        attr: InterruptDescriptorAttribute,
        offset: u64,
        segment_selector: u16,
    ) -> InterruptDescriptor {
        InterruptDescriptor {
            offset_low: (offset % 0x1_0000) as u16,
            segment_selector,
            attr,
            offset_middle: ((offset / 0x1_0000) % 0x1_0000) as u16,
            offset_high: (offset / 0x1_0000_0000) as u32,
            reserved: 0,
        }
    }

    /// Fills the slot with a gate to the handler at `offset`.
    pub fn set_idt_entry(
        &mut self,
        attr: InterruptDescriptorAttribute,
        offset: u64,
        segment_selector: u16,
    )
        ensures
            *final(self) == Self::spec_entry(attr, offset, segment_selector),
            final(self).offset() == offset,
            final(self).attr == attr,
            final(self).segment_selector == segment_selector,
    {
        self.attr = attr;
        self.offset_low = (offset % 0x1_0000) as u16;
        self.offset_middle = ((offset / 0x1_0000) % 0x1_0000) as u16;
        self.offset_high = (offset / 0x1_0000_0000) as u32;
        self.segment_selector = segment_selector;
        self.reserved = 0;
    }

    /// The address of the handler.
    pub fn handler_offset(&self) -> (offset: u64)
        ensures
            offset == self.offset(),
    {
        self.offset_low as u64 + (self.offset_middle as u64) * 0x1_0000 + (self.offset_high as u64)
            * 0x1_0000_0000
    }

    /// The descriptor as the two quadwords that the processor reads: the
    /// low offset, the selector, the attribute and the middle offset in the
    /// first, the high offset in the second.
    pub fn to_words(&self) -> (words: (u64, u64))
        ensures
            words.0 == self.offset_low + self.segment_selector * 0x1_0000 + self.attr.data
                * 0x1_0000_0000 + self.offset_middle * 0x1_0000_0000_0000,
            words.1 == self.offset_high + self.reserved * 0x1_0000_0000,
    {
        let low = self.offset_low as u64 + (self.segment_selector as u64) * 0x1_0000 + (
        self.attr.data as u64) * 0x1_0000_0000 + (self.offset_middle as u64) * 0x1_0000_0000_0000;
        let high = self.offset_high as u64 + (self.reserved as u64) * 0x1_0000_0000;
        (low, high)
    }
}

/// The interrupt descriptor table: `IDT_ENTRIES` slots, one per vector. Its
/// view is the sequence of its descriptors.
pub struct InterruptDescriptorTable {
    entries: Vec<InterruptDescriptor>,
}

impl View for InterruptDescriptorTable {
    type V = Seq<InterruptDescriptor>;

    closed spec fn view(&self) -> Seq<InterruptDescriptor> {
        self.entries@
    }
}

impl InterruptDescriptorTable {
    #[verifier::type_invariant]
    closed spec fn inv(&self) -> bool {
        self.entries.len() == IDT_ENTRIES
    }

    /// A table in which no vector is routed.
    pub fn new() -> (table: Self)
        ensures
            table@.len() == IDT_ENTRIES,
            forall|i: int| 0 <= i < IDT_ENTRIES ==> table@[i] == InterruptDescriptor::spec_default(),
    {
        InterruptDescriptorTable { entries: vec![InterruptDescriptor::const_default(); IDT_ENTRIES] }
    }

    /// Routes `vector` to the handler at `offset`; every other slot stays
    /// as it was.
    pub fn set_idt_entry(
        &mut self,
        vector: u8,
        attr: InterruptDescriptorAttribute,
        offset: u64,
        segment_selector: u16,
    )
        ensures
            final(self)@.len() == IDT_ENTRIES,
            final(self)@ == old(self)@.update(
                vector as int,
                InterruptDescriptor::spec_entry(attr, offset, segment_selector),
            ),
            final(self)@[vector as int].offset() == offset,
    {
        proof {
            use_type_invariant(&*self);
        }
        let mut descriptor = InterruptDescriptor::const_default();
        descriptor.set_idt_entry(attr, offset, segment_selector);
        self.entries[vector as usize] = descriptor;
    }

    /// The descriptor of `vector`.
    pub fn entry(&self, vector: u8) -> (descriptor: InterruptDescriptor)
        ensures
            self@.len() == IDT_ENTRIES,
            descriptor == self@[vector as int],
    {
        proof {
            use_type_invariant(self);
        }
        self.entries[vector as usize]
    }

    /// The limit to load into the descriptor table register together with
    /// the table's address: the table's size in bytes, less one.
    pub fn limit(&self) -> (limit: u16)
        ensures
            limit == DESCRIPTOR_SIZE * IDT_ENTRIES - 1,
    {
        (DESCRIPTOR_SIZE * IDT_ENTRIES - 1) as u16
    }
}

/// ID of the processor that booted: bits 24 to 31 of the local APIC ID
/// register.
pub fn local_apic_id_of(id_register: u32) -> (apic_id: u8)
    ensures
        apic_id == id_register / 0x100_0000,
{
    (id_register / 0x100_0000) as u8
}

/// What a message is about.
#[derive(Clone, Copy, Debug, PartialEq, Eq, Structural)]
pub enum MessageType {
    /// The xHCI host controller raised its interrupt.
    InterruptXHCI,
}

/// What the interrupt handler tells the main loop.
#[derive(Clone, Copy, Debug, PartialEq, Eq, Structural)]
pub struct Message {
    pub ty: MessageType,
}

impl Message {
    /// A message of the given type.
    pub fn new(ty: MessageType) -> (message: Self)
        ensures
            message.ty == ty,
    {
        Message { ty }
    }

    /// What the message is about.
    pub fn message_type(&self) -> (ty: MessageType)
        ensures
            ty == self.ty,
    {
        self.ty
    }
}

/// The acknowledgement that ends the handling of one interrupt: `value` is
/// to be written to the register at `register`.
#[derive(Clone, Copy, Debug, PartialEq, Eq, Structural)]
#[must_use]
pub struct EndOfInterrupt {
    pub register: u64,
    pub value: u32,
}

/// The acknowledgement for the local APIC.
pub fn notify_end_of_interrupt() -> (ack: EndOfInterrupt)
    ensures
        ack == (EndOfInterrupt { register: END_OF_INTERRUPT_REGISTER, value: 0 }),
{
    EndOfInterrupt { register: END_OF_INTERRUPT_REGISTER, value: 0 }
}

/// The work of the xHCI interrupt handler: it queues one notice for the
/// main loop, or drops it when the queue is full, and hands back the
/// acknowledgement that the caller is to make afterwards.
pub fn int_handler_xhci(main_queue: &mut ArrayQueue<Message>) -> (ack: EndOfInterrupt)
    ensures
        final(main_queue).spec_capacity() == old(main_queue).spec_capacity(),
        final(main_queue)@ == queue_step(
            old(main_queue)@,
            old(main_queue).spec_capacity(),
            QueueOp::Push(Message { ty: MessageType::InterruptXHCI }),
        ),
        ack == (EndOfInterrupt { register: END_OF_INTERRUPT_REGISTER, value: 0 }),
{
    let _ = main_queue.push(Message::new(MessageType::InterruptXHCI));
    notify_end_of_interrupt()
}

} // verus!
