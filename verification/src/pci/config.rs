//! The configuration registers of one function, held as the 64 dwords that
//! were last read from it or written to it.

use crate::error::Error;
use vstd::prelude::*;

verus! {

/// Number of dwords in the configuration space of one function.
pub const CONFIG_SPACE_DWORDS: usize = 64;

/// Number of base address registers in a header.
pub const BAR_COUNT: u8 = 6;

/// A value to be written to the register at `reg_addr` of a function.
#[derive(Clone, Copy, Debug, PartialEq, Eq, Structural)]
pub struct RegisterWrite {
    pub reg_addr: u8,
    pub value: u32,
}

/// Index of the dword that holds the register at `reg_addr`; the two low
/// bits of an offset are ignored.
pub open spec fn dword_index(reg_addr: u8) -> int {
    reg_addr as int / 4
}

/// The register file after `value` was written at `reg_addr`.
pub open spec fn registers_after_write(regs: Seq<u32>, reg_addr: u8, value: u32) -> Seq<u32> {
    regs.update(dword_index(reg_addr), value)
}

/// The register file after each write of `writes` was made in turn.
pub open spec fn registers_after_writes(regs: Seq<u32>, writes: Seq<RegisterWrite>) -> Seq<u32>
    decreases writes.len(),
{
    if writes.len() == 0 {
        regs
    } else {
        registers_after_write(
            registers_after_writes(regs, writes.drop_last()),
            writes.last().reg_addr,
            writes.last().value,
        )
    }
}

/// A register reads back the value last written to it, and a write leaves
/// every other register as it was.
pub proof fn lemma_read_after_write(regs: Seq<u32>, reg_addr: u8, value: u32, other: u8)
    requires
        regs.len() == CONFIG_SPACE_DWORDS,
    ensures
        registers_after_write(regs, reg_addr, value).len() == CONFIG_SPACE_DWORDS,
        registers_after_write(regs, reg_addr, value)[dword_index(reg_addr)] == value,
        dword_index(other) != dword_index(reg_addr) ==> registers_after_write(
            regs,
            reg_addr,
            value,
        )[dword_index(other)] == regs[dword_index(other)],
{
}

/// Whether a base address register's low dword announces a 64-bit address:
/// bit 2 is set.
pub open spec fn bar_is_64bit(low: u32) -> bool {
    (low / 4) % 2 == 1
}

/// Offset of base address register `index`.
pub open spec fn spec_bar_address(index: u8) -> int {
    0x10 + 4 * index
}

/// The value of base address register `index`: its dword alone for a 32-bit
/// register, joined with the next dword as the high half for a 64-bit one.
/// An index beyond the last register, or a 64-bit register in the last
/// position, is out of range.
pub open spec fn spec_read_bar(regs: Seq<u32>, index: u8) -> Result<u64, Error> {
    if index >= BAR_COUNT {
        Err(Error::IndexOutOfRange)
    } else {
        let low = regs[4 + index];
        if !bar_is_64bit(low) {
            Ok(low as u64)
        } else if index >= BAR_COUNT - 1 {
            Err(Error::IndexOutOfRange)
        } else {
            Ok((low + regs[5 + index] * 0x1_0000_0000) as u64)
        }
    }
}

/// Base of the memory-mapped window that a memory BAR describes: the value
/// with its four flag bits cleared.
pub fn mmio_base_of(bar: u64) -> (base: u64)
    ensures
        base == bar - bar % 16,
        base % 16 == 0,
{
    bar - bar % 16
}

/// Offset of base address register `index`.
pub fn calc_bar_address(index: u8) -> (reg_addr: u8)
    requires
        index < BAR_COUNT,
    ensures
        reg_addr == spec_bar_address(index),
        dword_index(reg_addr) == 4 + index,
{
    0x10 + 4 * index
}

/// Mirror of one function's configuration space. Its view is the sequence
/// of its `CONFIG_SPACE_DWORDS` dwords.
pub struct ConfigSpace {
    regs: Vec<u32>,
}

impl View for ConfigSpace {
    type V = Seq<u32>;

    closed spec fn view(&self) -> Seq<u32> {
        self.regs@
    }
}

impl ConfigSpace {
    #[verifier::type_invariant]
    closed spec fn inv(&self) -> bool {
        self.regs.len() == CONFIG_SPACE_DWORDS
    }

    /// Takes the dwords read from a function, in register order. `None`
    /// unless there are exactly `CONFIG_SPACE_DWORDS` of them.
    pub fn new(regs: Vec<u32>) -> (space: Option<Self>)
        ensures
            space is Some <==> regs.len() == CONFIG_SPACE_DWORDS,
            space matches Some(s) ==> s@ == regs@,
    {
        if regs.len() == CONFIG_SPACE_DWORDS {
            Some(ConfigSpace { regs })
        } else {
            None
        }
    }

    /// The dword that holds the register at `reg_addr`.
    pub fn read_conf_reg(&self, reg_addr: u8) -> (value: u32)
        ensures
            self@.len() == CONFIG_SPACE_DWORDS,
            value == self@[dword_index(reg_addr)],
    {
        proof {
            use_type_invariant(self);
        }
        self.regs[(reg_addr / 4) as usize]
    }

    /// Records `value` as the content of the register at `reg_addr`.
    pub fn write_conf_reg(&mut self, reg_addr: u8, value: u32)
        ensures
            final(self)@ == registers_after_write(old(self)@, reg_addr, value),
            final(self)@.len() == CONFIG_SPACE_DWORDS,
            final(self)@[dword_index(reg_addr)] == value,
    {
        proof {
            use_type_invariant(&*self);
        }
        let index = (reg_addr / 4) as usize;
        self.regs[index] = value;
    }

    /// Records a series of writes, first to last.
    pub fn apply(&mut self, writes: &Vec<RegisterWrite>)
        ensures
            final(self)@ == registers_after_writes(old(self)@, writes@),
            final(self)@.len() == CONFIG_SPACE_DWORDS,
    {
        proof {
            use_type_invariant(&*self);
        }
        let mut i: usize = 0;
        while i < writes.len()
            invariant
                i <= writes.len(),
                self@.len() == CONFIG_SPACE_DWORDS,
                self@ == registers_after_writes(old(self)@, writes@.subrange(0, i as int)),
            decreases writes.len() - i,
        {
            let w = writes[i];
            self.write_conf_reg(w.reg_addr, w.value);
            proof {
                let done = writes@.subrange(0, i + 1);
                assert(done.drop_last() =~= writes@.subrange(0, i as int));
                assert(done.last() == w);
            }
            i = i + 1;
        }
        assert(writes@.subrange(0, writes.len() as int) =~= writes@);
    }

    /// Reads base address register `index`.
    pub fn read_bar(&self, index: u8) -> (bar: Result<u64, Error>)
        ensures
            bar == spec_read_bar(self@, index),
    {
        if index >= BAR_COUNT {
            return Err(Error::IndexOutOfRange);
        }
        let reg_addr = calc_bar_address(index);
        let low = self.read_conf_reg(reg_addr);
        if (low / 4) % 2 == 0 {
            return Ok(low as u64);
        }
        if index >= BAR_COUNT - 1 {
            return Err(Error::IndexOutOfRange);
        }
        let high = self.read_conf_reg(reg_addr + 4);
        Ok(low as u64 + (high as u64) * 0x1_0000_0000)
    }
}

} // verus!
