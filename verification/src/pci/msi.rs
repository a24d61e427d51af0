//! Message-signalled interrupts: finding a function's MSI capability and
//! computing the register values that make it deliver one vector to one
//! processor.

use crate::error::Error;
use crate::pci::config::{
    dword_index, registers_after_writes, ConfigSpace, RegisterWrite, CONFIG_SPACE_DWORDS,
};
use crate::pci::REG_CAPABILITIES;
use vstd::prelude::*;

verus! {

/// Capability ID of message-signalled interrupts.
pub const CAPABILITY_MSI: u8 = 0x05;

/// Capability ID of the extended form, MSI-X.
pub const CAPABILITY_MSIX: u8 = 0x11;

/// Number of list entries that a search of the capability list follows. A
/// list without a loop has fewer.
pub const CAPABILITY_WALK_LIMIT: usize = 64;

/// How the interrupt line is signalled.
#[derive(Clone, Copy, Debug, PartialEq, Eq, Structural)]
pub enum MSITriggerMode {
    Edge,
    Level,
}

/// How the message is delivered to the processor.
#[derive(Clone, Copy, Debug, PartialEq, Eq, Structural)]
pub enum MSIDeliverMode {
    Fixed,
    LowestPriority,
    SMI,
    NMI,
    INIT,
    ExtINT,
}

impl MSIDeliverMode {
    /// The three-bit code of the mode in the message data.
    pub open spec fn spec_code(self) -> u8 {
        match self {
            MSIDeliverMode::Fixed => 0,
            MSIDeliverMode::LowestPriority => 1,
            MSIDeliverMode::SMI => 2,
            MSIDeliverMode::NMI => 4,
            MSIDeliverMode::INIT => 5,
            MSIDeliverMode::ExtINT => 7,
        }
    }

    /// The three-bit code of the mode.
    #[verifier::when_used_as_spec(spec_code)]
    pub fn code(self) -> (c: u8)
        ensures
            c == self.spec_code(),
    {
        match self {
            MSIDeliverMode::Fixed => 0,
            MSIDeliverMode::LowestPriority => 1,
            MSIDeliverMode::SMI => 2,
            MSIDeliverMode::NMI => 4,
            MSIDeliverMode::INIT => 5,
            MSIDeliverMode::ExtINT => 7,
        }
    }
}

/// Message address that selects the local APIC `apic_id` as the fixed
/// destination: `0xfee00000` with the ID in bits 12 to 19.
pub open spec fn spec_message_address(apic_id: u8) -> u32 {
    (0xfee0_0000 + apic_id * 0x1000) as u32
}

/// Computes the message address; see `spec_message_address`.
pub fn message_address(apic_id: u8) -> (address: u32)
    ensures
        address == spec_message_address(apic_id),
{
    0xfee0_0000u32 + (apic_id as u32) * 0x1000
}

/// Message data: the vector in bits 0 to 7, the delivery mode in bits 8 to
/// 10, and for a level-triggered interrupt bits 14 and 15 set.
pub open spec fn spec_message_data(
    trigger_mode: MSITriggerMode,
    delivery_mode: MSIDeliverMode,
    vector: u8,
) -> u32 {
    (delivery_mode.code() * 0x100 + vector + if trigger_mode == MSITriggerMode::Level {
        0xc000int
    } else {
        0int
    }) as u32
}

/// Computes the message data; see `spec_message_data`.
pub fn message_data(trigger_mode: MSITriggerMode, delivery_mode: MSIDeliverMode, vector: u8) -> (data:
    u32)
    ensures
        data == spec_message_data(trigger_mode, delivery_mode, vector),
{
    let base: u32 = (delivery_mode.code() as u32) * 0x100 + vector as u32;
    match trigger_mode {
        MSITriggerMode::Level => base + 0xc000,
        MSITriggerMode::Edge => base,
    }
}

/// Capability ID of a capability header: bits 0 to 7.
pub open spec fn capability_id(header: u32) -> u8 {
    (header % 0x100) as u8
}

/// Offset of the next capability: bits 8 to 15 of a capability header.
pub open spec fn capability_next(header: u32) -> u8 {
    ((header / 0x100) % 0x100) as u8
}

/// Offsets of the capabilities that matter for interrupts; 0 where the
/// function has none.
#[derive(Clone, Copy, Debug, PartialEq, Eq, Structural)]
pub struct Capabilities {
    pub msi: u8,
    pub msix: u8,
}

/// Follows the capability list from `cap_addr` for at most `limit` entries
/// and records where the MSI and MSI-X capabilities were seen last.
pub open spec fn spec_walk_capabilities(
    regs: Seq<u32>,
    cap_addr: u8,
    found: Capabilities,
    limit: nat,
) -> Capabilities
    decreases limit,
{
    if cap_addr == 0 || limit == 0 {
        found
    } else {
        let header = regs[dword_index(cap_addr)];
        let seen = if capability_id(header) == CAPABILITY_MSI {
            Capabilities { msi: cap_addr, msix: found.msix }
        } else if capability_id(header) == CAPABILITY_MSIX {
            Capabilities { msi: found.msi, msix: cap_addr }
        } else {
            found
        };
        spec_walk_capabilities(regs, capability_next(header), seen, (limit - 1) as nat)
    }
}

/// The capabilities of a function: a walk that starts at the low byte of
/// the capabilities pointer.
pub open spec fn spec_find_capabilities(regs: Seq<u32>) -> Capabilities {
    spec_walk_capabilities(
        regs,
        (regs[dword_index(REG_CAPABILITIES)] % 0x100) as u8,
        Capabilities { msi: 0, msix: 0 },
        CAPABILITY_WALK_LIMIT as nat,
    )
}

/// Number of vectors the function can use, as a power of two: bits 17 to
/// 19 of the MSI capability header.
pub open spec fn multi_msg_capable(header: u32) -> u8 {
    ((header / 0x2_0000) % 8) as u8
}

/// Number of vectors in use, as a power of two: bits 20 to 22.
pub open spec fn multi_msg_enable(header: u32) -> u8 {
    ((header / 0x10_0000) % 8) as u8
}

/// Whether MSI is switched on: bit 16.
pub open spec fn msi_enable(header: u32) -> bool {
    (header / 0x1_0000) % 2 == 1
}

/// Whether the capability holds a 64-bit message address: bit 23.
pub open spec fn addr_64_capable(header: u32) -> bool {
    (header / 0x80_0000) % 2 == 1
}

/// Whether the capability holds mask and pending registers: bit 24.
pub open spec fn per_vector_mask_capable(header: u32) -> bool {
    (header / 0x100_0000) % 2 == 1
}

/// The number of vectors to enable: what was asked for, but no more than
/// the function can use.
pub open spec fn granted_vectors(header: u32, num_vector_exponent: u8) -> u8 {
    if multi_msg_capable(header) <= num_vector_exponent {
        multi_msg_capable(header)
    } else {
        num_vector_exponent
    }
}

/// The MSI capability header with MSI switched on and the number of vectors
/// set to `granted_vectors`; every other bit is kept.
pub open spec fn spec_enabled_header(header: u32, num_vector_exponent: u8) -> u32 {
    (header - multi_msg_enable(header) * 0x10_0000 - (if msi_enable(header) {
        0x1_0000int
    } else {
        0int
    }) + granted_vectors(header, num_vector_exponent) * 0x10_0000 + 0x1_0000) as u32
}

/// What enabling does to an MSI capability header: MSI is switched on, the
/// number of vectors in use is the number granted, and what the function
/// tells of itself is kept: how many vectors it can use, whether it takes
/// a 64-bit address, whether it has mask bits, and its capability ID and
/// link to the next capability.
pub proof fn lemma_enabled_header(header: u32, num_vector_exponent: u8)
    ensures
        msi_enable(spec_enabled_header(header, num_vector_exponent)),
        multi_msg_enable(spec_enabled_header(header, num_vector_exponent)) == granted_vectors(
            header,
            num_vector_exponent,
        ),
        granted_vectors(header, num_vector_exponent) <= num_vector_exponent,
        granted_vectors(header, num_vector_exponent) <= multi_msg_capable(header),
        multi_msg_capable(spec_enabled_header(header, num_vector_exponent)) == multi_msg_capable(
            header,
        ),
        addr_64_capable(spec_enabled_header(header, num_vector_exponent)) == addr_64_capable(header),
        per_vector_mask_capable(spec_enabled_header(header, num_vector_exponent))
            == per_vector_mask_capable(header),
        capability_id(spec_enabled_header(header, num_vector_exponent)) == capability_id(header),
        capability_next(spec_enabled_header(header, num_vector_exponent)) == capability_next(
            header,
        ),
{
    let granted: u32 = granted_vectors(header, num_vector_exponent) as u32;
    let enabled: u32 = spec_enabled_header(header, num_vector_exponent);
    assert(enabled == (header & 0xff8e_ffffu32) | (granted << 20u32) | 0x1_0000u32) by (bit_vector)
        requires
            granted < 8,
            enabled == (header - ((header / 0x10_0000u32) % 8u32) * 0x10_0000u32 - (if (header
                / 0x1_0000u32) % 2u32 == 1u32 {
                0x1_0000u32
            } else {
                0u32
            }) + granted * 0x10_0000u32 + 0x1_0000u32) as u32,
    ;
    assert((enabled / 0x1_0000u32) % 2u32 == 1u32 && (enabled / 0x10_0000u32) % 8u32 == granted
        && (enabled / 0x2_0000u32) % 8u32 == (header / 0x2_0000u32) % 8u32 && (enabled
        / 0x80_0000u32) % 2u32 == (header / 0x80_0000u32) % 2u32 && (enabled / 0x100_0000u32)
        % 2u32 == (header / 0x100_0000u32) % 2u32 && enabled % 0x100u32 == header % 0x100u32
        && (enabled / 0x100u32) % 0x100u32 == (header / 0x100u32) % 0x100u32) by (bit_vector)
        requires
            granted < 8,
            enabled == (header & 0xff8e_ffffu32) | (granted << 20u32) | 0x1_0000u32,
    ;
}

/// The offset `distance` bytes after `cap_addr`, within the 256 bytes of
/// the configuration space.
pub open spec fn register_after(cap_addr: u8, distance: u8) -> u8 {
    ((cap_addr + distance) % 0x100) as u8
}

/// The writes that program the MSI capability at `cap_addr`: the enabled
/// header, the message address, the upper address as it was where the
/// capability has one, the message data, and mask and pending bits as they
/// were where the capability has them.
pub open spec fn spec_msi_register_writes(
    regs: Seq<u32>,
    cap_addr: u8,
    msg_addr: u32,
    msg_data: u32,
    num_vector_exponent: u8,
) -> Seq<RegisterWrite> {
    let header = regs[dword_index(cap_addr)];
    let data_addr = if addr_64_capable(header) {
        register_after(cap_addr, 12)
    } else {
        register_after(cap_addr, 8)
    };
    let head = seq![
        RegisterWrite { reg_addr: cap_addr, value: spec_enabled_header(header, num_vector_exponent) },
        RegisterWrite { reg_addr: register_after(cap_addr, 4), value: msg_addr },
    ];
    let upper = if addr_64_capable(header) {
        seq![
            RegisterWrite {
                reg_addr: register_after(cap_addr, 8),
                value: regs[dword_index(register_after(cap_addr, 8))],
            },
        ]
    } else {
        Seq::<RegisterWrite>::empty()
    };
    let data = seq![RegisterWrite { reg_addr: data_addr, value: msg_data }];
    let masks = if per_vector_mask_capable(header) {
        seq![
            RegisterWrite {
                reg_addr: register_after(data_addr, 4),
                value: regs[dword_index(register_after(data_addr, 4))],
            },
            RegisterWrite {
                reg_addr: register_after(data_addr, 8),
                value: regs[dword_index(register_after(data_addr, 8))],
            },
        ]
    } else {
        Seq::<RegisterWrite>::empty()
    };
    head + upper + data + masks
}

/// Once the writes for the MSI capability at `cap_addr` have been made, the
/// registers hold the enabled header and the message: the address in the
/// dword after the header, the data in the dword after the address or,
/// for a capability with a 64-bit address, after the upper address, which
/// is as it was. No register outside the capability is changed. This is
/// stated for a capability that lies wholly within the configuration space.
pub proof fn lemma_msi_writes_take_effect(
    regs: Seq<u32>,
    cap_addr: u8,
    msg_addr: u32,
    msg_data: u32,
    num_vector_exponent: u8,
)
    requires
        regs.len() == CONFIG_SPACE_DWORDS,
        cap_addr <= 0xe8,
    ensures
        ({
            let header = regs[dword_index(cap_addr)];
            let after = registers_after_writes(
                regs,
                spec_msi_register_writes(regs, cap_addr, msg_addr, msg_data, num_vector_exponent),
            );
            let first = dword_index(cap_addr);
            &&& after.len() == CONFIG_SPACE_DWORDS
            &&& after[first] == spec_enabled_header(header, num_vector_exponent)
            &&& msi_enable(after[first])
            &&& after[first + 1] == msg_addr
            &&& addr_64_capable(header) ==> after[first + 2] == regs[first + 2] && after[first + 3]
                == msg_data
            &&& !addr_64_capable(header) ==> after[first + 2] == msg_data
            &&& forall|i: int| 0 <= i < first ==> after[i] == regs[i]
            &&& forall|i: int| first + 6 <= i < CONFIG_SPACE_DWORDS ==> after[i] == regs[i]
        }),
{
    let header = regs[dword_index(cap_addr)];
    let writes = spec_msi_register_writes(regs, cap_addr, msg_addr, msg_data, num_vector_exponent);
    let first = dword_index(cap_addr);
    lemma_enabled_header(header, num_vector_exponent);
    lemma_msi_writes_are_consecutive(regs, cap_addr, msg_addr, msg_data, num_vector_exponent);
    lemma_consecutive_writes(regs, writes, first);
    let after = registers_after_writes(regs, writes);
    assert(after[first + 0] == writes[0].value);
    assert(after[first + 1] == writes[1].value);
    assert(after[first + 2] == writes[2].value);
    if addr_64_capable(header) {
        assert(after[first + 3] == writes[3].value);
    }
}

/// The writes for an MSI capability go to consecutive dwords, the header's
/// first, and carry the enabled header, the message address, the upper
/// address as it was where there is one, and the message data.
proof fn lemma_msi_writes_are_consecutive(
    regs: Seq<u32>,
    cap_addr: u8,
    msg_addr: u32,
    msg_data: u32,
    num_vector_exponent: u8,
)
    requires
        cap_addr <= 0xe8,
    ensures
        ({
            let header = regs[dword_index(cap_addr)];
            let writes = spec_msi_register_writes(
                regs,
                cap_addr,
                msg_addr,
                msg_data,
                num_vector_exponent,
            );
            let first = dword_index(cap_addr);
            &&& 3 <= writes.len() <= 6
            &&& forall|k: int|
                0 <= k < writes.len() ==> dword_index(#[trigger] writes[k].reg_addr) == first + k
            &&& writes[0].value == spec_enabled_header(header, num_vector_exponent)
            &&& writes[1].value == msg_addr
            &&& addr_64_capable(header) ==> writes.len() >= 4 && writes[2].value == regs[first + 2]
                && writes[3].value == msg_data
            &&& !addr_64_capable(header) ==> writes[2].value == msg_data
        }),
{
    let header = regs[dword_index(cap_addr)];
    let first = dword_index(cap_addr);
    let a4 = register_after(cap_addr, 4);
    let a8 = register_after(cap_addr, 8);
    let a12 = register_after(cap_addr, 12);
    assert(a4 == cap_addr + 4 && a8 == cap_addr + 8 && a12 == cap_addr + 12);
    assert(dword_index(a4) == first + 1);
    assert(dword_index(a8) == first + 2);
    assert(dword_index(a12) == first + 3);
    let data_addr = if addr_64_capable(header) {
        a12
    } else {
        a8
    };
    let m4 = register_after(data_addr, 4);
    let m8 = register_after(data_addr, 8);
    assert(m4 == data_addr + 4 && m8 == data_addr + 8);
    assert(dword_index(m4) == dword_index(data_addr) + 1);
    assert(dword_index(m8) == dword_index(data_addr) + 2);
    let enabled = RegisterWrite {
        reg_addr: cap_addr,
        value: spec_enabled_header(header, num_vector_exponent),
    };
    let address = RegisterWrite { reg_addr: a4, value: msg_addr };
    let upper = RegisterWrite { reg_addr: a8, value: regs[dword_index(a8)] };
    let data = RegisterWrite { reg_addr: data_addr, value: msg_data };
    let mask = RegisterWrite { reg_addr: m4, value: regs[dword_index(m4)] };
    let pending = RegisterWrite { reg_addr: m8, value: regs[dword_index(m8)] };
    let writes = spec_msi_register_writes(regs, cap_addr, msg_addr, msg_data, num_vector_exponent);
    if addr_64_capable(header) {
        if per_vector_mask_capable(header) {
            assert(writes =~= seq![enabled, address, upper, data, mask, pending]);
        } else {
            assert(writes =~= seq![enabled, address, upper, data]);
        }
    } else {
        if per_vector_mask_capable(header) {
            assert(writes =~= seq![enabled, address, data, mask, pending]);
        } else {
            assert(writes =~= seq![enabled, address, data]);
        }
    }
}

/// Writes that go to consecutive dwords from `first` on, one each, leave
/// each of those dwords with the value written to it and every other dword
/// as it was.
proof fn lemma_consecutive_writes(regs: Seq<u32>, writes: Seq<RegisterWrite>, first: int)
    requires
        0 <= first,
        first + writes.len() <= regs.len(),
        forall|k: int|
            0 <= k < writes.len() ==> dword_index(#[trigger] writes[k].reg_addr) == first + k,
    ensures
        registers_after_writes(regs, writes).len() == regs.len(),
        forall|k: int|
            0 <= k < writes.len() ==> #[trigger] registers_after_writes(regs, writes)[first + k]
                == writes[k].value,
        forall|i: int|
            0 <= i < regs.len() && !(first <= i < first + writes.len()) ==> registers_after_writes(
                regs,
                writes,
            )[i] == regs[i],
    decreases writes.len(),
{
    if writes.len() > 0 {
        let shorter = writes.drop_last();
        assert forall|k: int| 0 <= k < shorter.len() implies dword_index(
            #[trigger] shorter[k].reg_addr,
        ) == first + k by {
            assert(shorter[k] == writes[k]);
        }
        lemma_consecutive_writes(regs, shorter, first);
        let last = writes.len() - 1;
        assert(dword_index(writes[last].reg_addr) == first + last);
        let before = registers_after_writes(regs, shorter);
        let after = registers_after_writes(regs, writes);
        assert(after == before.update(first + last, writes[last].value));
        assert forall|k: int| 0 <= k < writes.len() implies #[trigger] after[first + k]
            == writes[k].value by {
            if k < last {
                assert(before[first + k] == shorter[k].value);
                assert(shorter[k] == writes[k]);
            }
        }
    }
}

/// What configuring MSI yields: the writes for the MSI capability where the
/// function has one; `NotImplemented` where it has only MSI-X; `NoPCIMSI`
/// where it has neither.
pub open spec fn spec_configure_msi(
    regs: Seq<u32>,
    msg_addr: u32,
    msg_data: u32,
    num_vector_exponent: u8,
) -> Result<Seq<RegisterWrite>, Error> {
    let found = spec_find_capabilities(regs);
    if found.msi != 0 {
        Ok(spec_msi_register_writes(regs, found.msi, msg_addr, msg_data, num_vector_exponent))
    } else if found.msix != 0 {
        Err(Error::NotImplemented)
    } else {
        Err(Error::NoPCIMSI)
    }
}

fn offset_after(cap_addr: u8, distance: u8) -> (reg_addr: u8)
    ensures
        reg_addr == register_after(cap_addr, distance),
{
    ((cap_addr as u16 + distance as u16) % 0x100) as u8
}

impl ConfigSpace {
    /// Searches the capability list for MSI and MSI-X.
    pub fn find_capabilities(&self) -> (found: Capabilities)
        ensures
            found == spec_find_capabilities(self@),
    {
        let mut cap_addr: u8 = (self.read_conf_reg(REG_CAPABILITIES) % 0x100) as u8;
        let mut found = Capabilities { msi: 0, msix: 0 };
        let mut left: usize = CAPABILITY_WALK_LIMIT;
        while cap_addr != 0 && left > 0
            invariant
                self@.len() == CONFIG_SPACE_DWORDS,
                spec_walk_capabilities(self@, cap_addr, found, left as nat)
                    == spec_find_capabilities(self@),
            decreases left,
        {
            let header = self.read_conf_reg(cap_addr);
            let id = (header % 0x100) as u8;
            if id == CAPABILITY_MSI {
                found = Capabilities { msi: cap_addr, msix: found.msix };
            } else if id == CAPABILITY_MSIX {
                found = Capabilities { msi: found.msi, msix: cap_addr };
            }
            cap_addr = ((header / 0x100) % 0x100) as u8;
            left = left - 1;
        }
        found
    }

    /// Computes the writes that program the MSI capability at `cap_addr`.
    pub fn configure_msi_register(
        &self,
        cap_addr: u8,
        msg_addr: u32,
        msg_data: u32,
        num_vector_exponent: u8,
    ) -> (writes: Vec<RegisterWrite>)
        ensures
            writes@ == spec_msi_register_writes(
                self@,
                cap_addr,
                msg_addr,
                msg_data,
                num_vector_exponent,
            ),
    {
        let header = self.read_conf_reg(cap_addr);
        let capable = ((header / 0x2_0000) % 8) as u8;
        let enable = ((header / 0x10_0000) % 8) as u8;
        let granted = if capable <= num_vector_exponent {
            capable
        } else {
            num_vector_exponent
        };
        let switched_on: u32 = if (header / 0x1_0000) % 2 == 1 {
            0x1_0000
        } else {
            0
        };
        let cleared: u32 = header - (enable as u32) * 0x10_0000 - switched_on;
        let new_header: u32 = cleared + (granted as u32) * 0x10_0000 + 0x1_0000;
        let wide = (header / 0x80_0000) % 2 == 1;
        let masked = (header / 0x100_0000) % 2 == 1;

        let mut writes: Vec<RegisterWrite> = Vec::new();
        writes.push(RegisterWrite { reg_addr: cap_addr, value: new_header });
        writes.push(RegisterWrite { reg_addr: offset_after(cap_addr, 4), value: msg_addr });
        let data_addr = if wide {
            let upper_addr = offset_after(cap_addr, 8);
            writes.push(
                RegisterWrite { reg_addr: upper_addr, value: self.read_conf_reg(upper_addr) },
            );
            offset_after(cap_addr, 12)
        } else {
            offset_after(cap_addr, 8)
        };
        writes.push(RegisterWrite { reg_addr: data_addr, value: msg_data });
        if masked {
            let mask_addr = offset_after(data_addr, 4);
            let pending_addr = offset_after(data_addr, 8);
            writes.push(RegisterWrite { reg_addr: mask_addr, value: self.read_conf_reg(mask_addr) });
            writes.push(
                RegisterWrite { reg_addr: pending_addr, value: self.read_conf_reg(pending_addr) },
            );
        }
        assert(writes@ =~= spec_msi_register_writes(
            self@,
            cap_addr,
            msg_addr,
            msg_data,
            num_vector_exponent,
        ));
        writes
    }

    /// Computes the writes that make the function signal its interrupts by
    /// MSI with the given message.
    pub fn configure_msi(&self, msg_addr: u32, msg_data: u32, num_vector_exponent: u8) -> (r: Result<
        Vec<RegisterWrite>,
        Error,
    >)
        ensures
            match r {
                Ok(writes) => spec_configure_msi(self@, msg_addr, msg_data, num_vector_exponent)
                    == Ok::<Seq<RegisterWrite>, Error>(writes@),
                Err(e) => spec_configure_msi(self@, msg_addr, msg_data, num_vector_exponent)
                    == Err::<Seq<RegisterWrite>, Error>(e),
            },
    {
        let found = self.find_capabilities();
        if found.msi != 0 {
            Ok(self.configure_msi_register(found.msi, msg_addr, msg_data, num_vector_exponent))
        } else if found.msix != 0 {
            Err(Error::NotImplemented)
        } else {
            Err(Error::NoPCIMSI)
        }
    }

    /// Computes the writes that make the function deliver vector `vector`
    /// to the local APIC `apic_id` by MSI.
    pub fn configure_msi_fixed_destination(
        &self,
        apic_id: u8,
        trigger_mode: MSITriggerMode,
        delivery_mode: MSIDeliverMode,
        vector: u8,
        num_vector_exponent: u8,
    ) -> (r: Result<Vec<RegisterWrite>, Error>)
        ensures
            match r {
                Ok(writes) => spec_configure_msi(
                    self@,
                    spec_message_address(apic_id),
                    spec_message_data(trigger_mode, delivery_mode, vector),
                    num_vector_exponent,
                ) == Ok::<Seq<RegisterWrite>, Error>(writes@),
                Err(e) => spec_configure_msi(
                    self@,
                    spec_message_address(apic_id),
                    spec_message_data(trigger_mode, delivery_mode, vector),
                    num_vector_exponent,
                ) == Err::<Seq<RegisterWrite>, Error>(e),
            },
    {
        let msg_addr = message_address(apic_id);
        let msg_data = message_data(trigger_mode, delivery_mode, vector);
        self.configure_msi(msg_addr, msg_data, num_vector_exponent)
    }
}

} // verus!
