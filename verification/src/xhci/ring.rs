//! The two rings of blocks that the driver and the host controller share:
//! the event ring, which the controller fills and the driver drains, and
//! the command ring, which the driver fills.
//!
//! The blocks themselves lie in memory that the controller can reach. Kept
//! here are the cursors into them.

use crate::xhci::trb::{Trb, TRB_SIZE};
use vstd::prelude::*;

verus! {

/// Largest number of blocks in a ring segment.
pub const MAX_RING_SIZE: usize = 0x1_0000;

/// A position in a ring of `size` blocks together with the cycle state of
/// the side that stands there.
pub struct Cursor {
    pub size: nat,
    pub index: nat,
    pub cycle: bool,
}

impl Cursor {
    /// The ring has a size that a ring can have, and the cursor lies in it.
    pub open spec fn wf(self) -> bool {
        0 < self.size <= MAX_RING_SIZE && self.index < self.size
    }

    /// The cursor one block further; at the end of the ring it returns to
    /// the first block and its cycle state flips.
    pub open spec fn advanced(self) -> Cursor {
        if self.index + 1 == self.size {
            Cursor { size: self.size, index: 0, cycle: !self.cycle }
        } else {
            Cursor { size: self.size, index: self.index + 1, cycle: self.cycle }
        }
    }
}

/// A ring as both sides see it: the cycle bit of every block as last
/// written, where the producer will write next, and where the consumer
/// will read next.
pub struct RingModel {
    pub bits: Seq<bool>,
    pub producer: Cursor,
    pub consumer: Cursor,
}

impl RingModel {
    /// The state that the cycle protocol keeps: the producer has written
    /// its current cycle state into exactly the blocks before its cursor,
    /// and it is at most one lap ahead of the consumer.
    pub open spec fn inv(self) -> bool {
        &&& self.producer.wf()
        &&& self.consumer.wf()
        &&& self.producer.size == self.consumer.size
        &&& self.bits.len() == self.producer.size
        &&& forall|i: int|
            0 <= i < self.bits.len() ==> (#[trigger] self.bits[i] == self.producer.cycle <==> i
                < self.producer.index)
        &&& if self.producer.cycle == self.consumer.cycle {
            self.consumer.index <= self.producer.index
        } else {
            self.producer.index <= self.consumer.index
        }
    }

    /// Number of blocks written and not yet read.
    pub open spec fn pending(self) -> int {
        if self.producer.cycle == self.consumer.cycle {
            self.producer.index - self.consumer.index
        } else {
            self.producer.size - self.consumer.index + self.producer.index
        }
    }

    /// Whether the consumer sees an unread block: the bit of the block
    /// under its cursor equals its own cycle state.
    pub open spec fn has_front(self) -> bool {
        self.bits[self.consumer.index as int] == self.consumer.cycle
    }

    /// A fresh ring of `size` blocks: all bits clear, both sides at the
    /// first block with cycle state set.
    pub open spec fn fresh(size: nat) -> RingModel {
        RingModel {
            bits: Seq::new(size, |i: int| false),
            producer: Cursor { size, index: 0, cycle: true },
            consumer: Cursor { size, index: 0, cycle: true },
        }
    }

    /// The ring after the producer wrote one block.
    pub open spec fn produce(self) -> RingModel {
        RingModel {
            bits: self.bits.update(self.producer.index as int, self.producer.cycle),
            producer: self.producer.advanced(),
            consumer: self.consumer,
        }
    }

    /// The ring after the consumer took one block.
    pub open spec fn consume(self) -> RingModel {
        RingModel { bits: self.bits, producer: self.producer, consumer: self.consumer.advanced() }
    }
}

/// A fresh ring keeps the protocol and holds nothing to read.
pub proof fn lemma_fresh_ring(size: nat)
    requires
        0 < size <= MAX_RING_SIZE,
    ensures
        RingModel::fresh(size).inv(),
        RingModel::fresh(size).pending() == 0,
        !RingModel::fresh(size).has_front(),
{
}

/// The cycle bit is a faithful signal: the consumer sees an unread block
/// exactly when one was written and not yet read. So a consumer that reads
/// only when it sees one never passes the producer.
pub proof fn lemma_has_front_iff_pending(ring: RingModel)
    requires
        ring.inv(),
    ensures
        0 <= ring.pending() <= ring.producer.size,
        ring.has_front() <==> ring.pending() > 0,
{
    let i = ring.consumer.index as int;
    assert(ring.bits[i] == ring.producer.cycle <==> i < ring.producer.index);
}

/// Writing a block into a ring that is not full keeps the protocol and
/// adds one unread block.
pub proof fn lemma_produce(ring: RingModel)
    requires
        ring.inv(),
        ring.pending() < ring.producer.size,
    ensures
        ring.produce().inv(),
        ring.produce().pending() == ring.pending() + 1,
        ring.produce().consumer == ring.consumer,
{
    let after = ring.produce();
    assert forall|i: int| 0 <= i < after.bits.len() implies (#[trigger] after.bits[i]
        == after.producer.cycle <==> i < after.producer.index) by {
        assert(ring.bits[i] == ring.producer.cycle <==> i < ring.producer.index);
    }
}

/// Taking the block that the consumer sees keeps the protocol and removes
/// one unread block.
pub proof fn lemma_consume(ring: RingModel)
    requires
        ring.inv(),
        ring.has_front(),
    ensures
        ring.consume().inv(),
        ring.consume().pending() == ring.pending() - 1,
        ring.consume().producer == ring.producer,
        ring.consume().bits == ring.bits,
{
    lemma_has_front_iff_pending(ring);
}

/// The driver's cursor into the primary event ring. Its view is the
/// `Cursor` of the consumer.
pub struct EventRing {
    size: usize,
    read_index: usize,
    cycle_bit: bool,
}

impl View for EventRing {
    type V = Cursor;

    closed spec fn view(&self) -> Cursor {
        Cursor { size: self.size as nat, index: self.read_index as nat, cycle: self.cycle_bit }
    }
}

impl EventRing {
    #[verifier::type_invariant]
    closed spec fn inv(&self) -> bool {
        0 < self.size <= MAX_RING_SIZE && self.read_index < self.size
    }

    /// The cursor for a fresh ring of `size` blocks, or `None` where a ring
    /// cannot have that size.
    pub fn new(size: usize) -> (ring: Option<Self>)
        ensures
            ring is Some <==> 0 < size <= MAX_RING_SIZE,
            ring matches Some(r) ==> r@ == (Cursor { size: size as nat, index: 0, cycle: true }),
    {
        if size == 0 || size > MAX_RING_SIZE {
            None
        } else {
            Some(EventRing { size, read_index: 0, cycle_bit: true })
        }
    }

    /// Number of blocks in the ring.
    pub fn size(&self) -> (size: usize)
        ensures
            size == self@.size,
            self@.wf(),
    {
        proof {
            use_type_invariant(self);
        }
        self.size
    }

    /// Index of the block that is read next.
    pub fn read_index(&self) -> (index: usize)
        ensures
            index == self@.index,
            self@.wf(),
    {
        proof {
            use_type_invariant(self);
        }
        self.read_index
    }

    /// Distance in bytes from the ring's first block to the block that is
    /// read next.
    pub fn dequeue_offset(&self) -> (offset: u64)
        ensures
            offset == self@.index * TRB_SIZE,
    {
        proof {
            use_type_invariant(self);
        }
        (self.read_index as u64) * TRB_SIZE
    }

    /// The cycle state that marks a block as unread.
    pub fn cycle_bit(&self) -> (cycle: bool)
        ensures
            cycle == self@.cycle,
    {
        self.cycle_bit
    }

    /// Whether `front`, the block under the cursor, is an unread event.
    pub fn has_front(&self, front: Trb) -> (unread: bool)
        ensures
            unread == (front.spec_cycle_bit() == self@.cycle),
    {
        front.cycle_bit() == self.cycle_bit
    }

    /// Moves the cursor past the block it stands on.
    pub fn pop(&mut self)
        ensures
            final(self)@ == old(self)@.advanced(),
            final(self)@.wf(),
    {
        proof {
            use_type_invariant(&*self);
        }
        if self.read_index + 1 == self.size {
            self.read_index = 0;
            self.cycle_bit = !self.cycle_bit;
        } else {
            self.read_index = self.read_index + 1;
        }
    }
}

/// A block to be stored at position `index` of a ring.
#[derive(Clone, Copy, Debug, PartialEq, Eq, Structural)]
pub struct RingStore {
    pub index: usize,
    pub trb: Trb,
}

/// The state of the command ring: its address, the type of the command
/// last issued at each position (0 where none was), and the producer's
/// cursor. The last position holds the link block, so the cursor never
/// rests there.
pub struct CommandRingState {
    pub base: u64,
    pub types: Seq<u8>,
    pub cursor: Cursor,
}

impl CommandRingState {
    /// The ring has room for a command and the link block, its cursor lies
    /// before the link block, and its blocks lie within the address space
    /// at multiples of their size.
    pub open spec fn wf(self) -> bool {
        &&& 2 <= self.types.len() <= MAX_RING_SIZE
        &&& self.cursor.size == self.types.len()
        &&& self.cursor.index + 1 < self.types.len()
        &&& self.base % TRB_SIZE == 0
        &&& self.base + self.types.len() * TRB_SIZE <= u64::MAX
    }

    /// Address of the block at position `index`.
    pub open spec fn address_of(self, index: int) -> int {
        self.base + index * TRB_SIZE
    }

    /// The blocks to store when `trb` is issued: `trb` itself, marked with
    /// the producer's cycle state, at the cursor; and, where that fills the
    /// last free position, the link block after it.
    pub open spec fn stores(self, trb: Trb) -> Seq<RingStore> {
        let own = RingStore {
            index: self.cursor.index as usize,
            trb: trb.spec_with_cycle(self.cursor.cycle),
        };
        if self.cursor.index + 2 == self.types.len() {
            seq![
                own,
                RingStore {
                    index: (self.types.len() - 1) as usize,
                    trb: Trb::spec_link(self.base, true).spec_with_cycle(self.cursor.cycle),
                },
            ]
        } else {
            seq![own]
        }
    }

    /// The state after `trb` was issued.
    pub open spec fn pushed(self, trb: Trb) -> CommandRingState {
        CommandRingState {
            base: self.base,
            types: self.types.update(self.cursor.index as int, trb.spec_trb_type()),
            cursor: if self.cursor.index + 2 == self.types.len() {
                Cursor { size: self.cursor.size, index: 0, cycle: !self.cursor.cycle }
            } else {
                Cursor {
                    size: self.cursor.size,
                    index: self.cursor.index + 1,
                    cycle: self.cursor.cycle,
                }
            },
        }
    }

    /// The type of the command that was issued at address `pointer`, or
    /// `None` where `pointer` is no command position of this ring.
    pub open spec fn issued_type(self, pointer: u64) -> Option<u8> {
        if self.base <= pointer && (pointer - self.base) % (TRB_SIZE as int) == 0 && (pointer
            - self.base) / (TRB_SIZE as int) + 1 < self.types.len() {
            Some(self.types[(pointer - self.base) / (TRB_SIZE as int)])
        } else {
            None
        }
    }
}

/// A command can be found again under the address it was stored at.
pub proof fn lemma_issued_command_is_found(ring: CommandRingState, trb: Trb)
    requires
        ring.wf(),
    ensures
        ring.pushed(trb).wf(),
        ring.pushed(trb).issued_type(ring.address_of(ring.cursor.index as int) as u64) == Some(
            trb.spec_trb_type(),
        ),
        ring.stores(trb)[0].index == ring.cursor.index,
        ring.stores(trb)[0].trb.spec_cycle_bit() == ring.cursor.cycle,
{
    let index = ring.cursor.index as int;
    let pointer = ring.address_of(index);
    assert(index * TRB_SIZE <= ring.types.len() * TRB_SIZE) by (nonlinear_arith)
        requires
            0 <= index <= ring.types.len(),
    ;
    vstd::arithmetic::div_mod::lemma_fundamental_div_mod_converse(
        pointer - ring.base,
        TRB_SIZE as int,
        index,
        0,
    );
    let bit = if ring.cursor.cycle {
        1int
    } else {
        0int
    };
    vstd::arithmetic::div_mod::lemma_fundamental_div_mod_converse(
        trb.control - trb.control % 2 + bit,
        2,
        trb.control as int / 2,
        bit,
    );
}

/// The driver's side of the command ring. Its view is the
/// `CommandRingState`.
pub struct CommandRing {
    base: u64,
    types: Vec<u8>,
    write_index: usize,
    cycle_bit: bool,
}

impl View for CommandRing {
    type V = CommandRingState;

    closed spec fn view(&self) -> CommandRingState {
        CommandRingState {
            base: self.base,
            types: self.types@,
            cursor: Cursor {
                size: self.types.len() as nat,
                index: self.write_index as nat,
                cycle: self.cycle_bit,
            },
        }
    }
}

impl CommandRing {
    #[verifier::type_invariant]
    closed spec fn inv(&self) -> bool {
        self@.wf()
    }

    /// The state of a fresh ring of `size` blocks at address `base`, or
    /// `None` where `size` is less than 2 or more than `MAX_RING_SIZE`,
    /// `base` is not a multiple of the block size, or the ring would reach
    /// past the end of the address space.
    pub fn new(base: u64, size: usize) -> (ring: Option<Self>)
        ensures
            ring is Some <==> 2 <= size <= MAX_RING_SIZE && base % TRB_SIZE == 0 && base + size
                * TRB_SIZE <= u64::MAX,
            ring matches Some(r) ==> r@.wf() && r@.base == base && r@.types.len() == size
                && r@.cursor == (Cursor { size: size as nat, index: 0, cycle: true })
                && forall|i: int| 0 <= i < size ==> r@.types[i] == 0,
    {
        if size < 2 || size > MAX_RING_SIZE || base % TRB_SIZE != 0 {
            return None;
        }
        let bytes = (size as u64) * TRB_SIZE;
        if base > u64::MAX - bytes {
            return None;
        }
        Some(CommandRing { base, types: vec![0u8; size], write_index: 0, cycle_bit: true })
    }

    /// Address of the ring's first block.
    pub fn base(&self) -> (base: u64)
        ensures
            base == self@.base,
            self@.wf(),
    {
        proof {
            use_type_invariant(self);
        }
        self.base
    }

    /// The producer's cycle state.
    pub fn cycle_bit(&self) -> (cycle: bool)
        ensures
            cycle == self@.cursor.cycle,
    {
        self.cycle_bit
    }

    /// Issues `trb`: returns the blocks that the caller is to store in the
    /// ring before it rings the doorbell, and moves the cursor on.
    pub fn push(&mut self, trb: Trb) -> (stores: Vec<RingStore>)
        ensures
            old(self)@.wf(),
            final(self)@ == old(self)@.pushed(trb),
            final(self)@.wf(),
            stores@ == old(self)@.stores(trb),
    {
        proof {
            use_type_invariant(&*self);
        }
        let size = self.types.len();
        let index = self.write_index;
        let cycle = self.cycle_bit;
        let mut stores: Vec<RingStore> = Vec::new();
        stores.push(RingStore { index, trb: trb.with_cycle(cycle) });
        let trb_type = trb.trb_type();
        self.types[index] = trb_type;
        if index + 2 == size {
            stores.push(
                RingStore { index: size - 1, trb: Trb::link(self.base, true).with_cycle(cycle) },
            );
            self.write_index = 0;
            self.cycle_bit = !cycle;
        } else {
            self.write_index = index + 1;
        }
        assert(stores@ =~= old(self)@.stores(trb));
        stores
    }

    /// Looks up the type of the command that was issued at address
    /// `pointer`.
    pub fn issued_type(&self, pointer: u64) -> (trb_type: Option<u8>)
        ensures
            trb_type == self@.issued_type(pointer),
    {
        proof {
            use_type_invariant(self);
        }
        if pointer < self.base {
            return None;
        }
        let distance = pointer - self.base;
        if distance % TRB_SIZE != 0 {
            return None;
        }
        let index = distance / TRB_SIZE;
        if index + 1 < self.types.len() as u64 {
            Some(self.types[index as usize])
        } else {
            None
        }
    }
}

} // verus!
