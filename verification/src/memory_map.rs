//! The memory map that the firmware hands over: which regions the kernel
//! may use, and how a region is named and listed.

use uefi::table::boot::MemoryMap;
use vstd::prelude::*;

verus! {

/// Size of a page in bytes.
pub const PAGE_SIZE: u64 = 4096;

/// Memory type of the code of boot services.
pub const BOOT_SERVICES_CODE: u32 = 3;

/// Memory type of the data of boot services.
pub const BOOT_SERVICES_DATA: u32 = 4;

/// Memory type of free memory.
pub const CONVENTIONAL: u32 = 7;

/// One region of the memory map: its type, where it starts, how many pages
/// it has, and its attribute bits.
#[derive(Clone, Copy, Debug, PartialEq, Eq, Structural)]
pub struct MemoryRegion {
    pub ty: u32,
    pub phys_start: u64,
    pub page_count: u64,
    pub att: u64,
}

/// Whether the kernel may use memory of type `ty` once boot services have
/// ended: their code and data, and free memory.
pub open spec fn spec_is_available(ty: u32) -> bool {
    ty == BOOT_SERVICES_CODE || ty == BOOT_SERVICES_DATA || ty == CONVENTIONAL
}

/// Whether the kernel may use memory of type `ty`.
#[verifier::when_used_as_spec(spec_is_available)]
pub fn is_available(ty: u32) -> (available: bool)
    ensures
        available == spec_is_available(ty),
{
    ty == BOOT_SERVICES_CODE || ty == BOOT_SERVICES_DATA || ty == CONVENTIONAL
}

impl MemoryRegion {
    /// Address of the region's last byte: the start and the length in
    /// bytes, less one. `None` where the region is empty at address 0 or
    /// where its length or its end does not fit in 64 bits.
    pub open spec fn spec_phys_end(self) -> Option<u64> {
        if 1 <= self.phys_start + self.page_count * PAGE_SIZE <= u64::MAX {
            Some((self.phys_start + self.page_count * PAGE_SIZE - 1) as u64)
        } else {
            None
        }
    }

    /// Address of the region's last byte; see `spec_phys_end`.
    pub fn phys_end(&self) -> (end: Option<u64>)
        ensures
            end == self.spec_phys_end(),
    {
        if self.page_count > u64::MAX / PAGE_SIZE {
            return None;
        }
        let bytes = self.page_count * PAGE_SIZE;
        if self.phys_start > u64::MAX - bytes {
            return None;
        }
        let end = self.phys_start + bytes;
        if end == 0 {
            None
        } else {
            Some(end - 1)
        }
    }
}

/// The regions of `regions` that the kernel may use, in their order.
pub open spec fn available_of(regions: Seq<MemoryRegion>) -> Seq<MemoryRegion>
    decreases regions.len(),
{
    if regions.len() == 0 {
        regions
    } else if spec_is_available(regions.last().ty) {
        available_of(regions.drop_last()).push(regions.last())
    } else {
        available_of(regions.drop_last())
    }
}

/// The memory map of the `uefi` crate, `uefi::table::boot::MemoryMap`. Nothing
/// is known of what a value of it holds but through `memory_map_regions`.
#[verifier::external_type_specification]
#[verifier::external_body]
pub struct ExMemoryMap<'buf>(uefi::table::boot::MemoryMap<'buf>);

/// The regions that a memory map holds, in the order of the map: of each
/// descriptor the number of its type, its physical start, its page count
/// and the bits of its attribute.
pub uninterp spec fn memory_map_regions(map: &MemoryMap) -> Seq<MemoryRegion>;

/// Number of regions in the map: the length of the iterator that
/// `MemoryMap::entries` returns, which is the number of descriptors that
/// the map holds.
#[verifier::external_body]
fn region_count(map: &MemoryMap) -> (count: usize)
    ensures
        count == memory_map_regions(map).len(),
{
    map.entries().len()
}

/// The region at `index`: the descriptor that indexing a `MemoryMap` yields
/// for an index below the number of descriptors, with its type's number,
/// its physical start, its page count and the bits of its attribute.
/// Indexing beyond the last descriptor panics, so such an index is left
/// out.
#[verifier::external_body]
fn region_at(map: &MemoryMap, index: usize) -> (region: MemoryRegion)
    requires
        index < memory_map_regions(map).len(),
    ensures
        region == memory_map_regions(map)[index as int],
{
    let descriptor = &map[index];
    MemoryRegion {
        ty: descriptor.ty.0,
        phys_start: descriptor.phys_start,
        page_count: descriptor.page_count,
        att: descriptor.att.bits(),
    }
}

/// All regions of the map, in the order of the map.
pub fn regions_of(map: &MemoryMap) -> (regions: Vec<MemoryRegion>)
    ensures
        regions@ == memory_map_regions(map),
{
    let count = region_count(map);
    let mut regions: Vec<MemoryRegion> = Vec::new();
    let mut i: usize = 0;
    while i < count
        invariant
            i <= count,
            count == memory_map_regions(map).len(),
            regions@ == memory_map_regions(map).subrange(0, i as int),
        decreases count - i,
    {
        regions.push(region_at(map, i));
        assert(regions@ =~= memory_map_regions(map).subrange(0, i + 1));
        i = i + 1;
    }
    assert(regions@ =~= memory_map_regions(map));
    regions
}

/// The regions among `regions` that the kernel may use.
pub fn available_regions(regions: &Vec<MemoryRegion>) -> (available: Vec<MemoryRegion>)
    ensures
        available@ == available_of(regions@),
{
    let mut available: Vec<MemoryRegion> = Vec::new();
    let mut i: usize = 0;
    while i < regions.len()
        invariant
            i <= regions.len(),
            available@ == available_of(regions@.subrange(0, i as int)),
        decreases regions.len() - i,
    {
        let region = regions[i];
        proof {
            let next = regions@.subrange(0, i + 1);
            assert(next.drop_last() =~= regions@.subrange(0, i as int));
            assert(next.last() == region);
        }
        if is_available(region.ty) {
            available.push(region);
        }
        i = i + 1;
    }
    assert(regions@.subrange(0, regions.len() as int) =~= regions@);
    available
}

/// The regions of the map that the kernel may use.
pub fn available_memory(map: &MemoryMap) -> (available: Vec<MemoryRegion>)
    ensures
        available@ == available_of(memory_map_regions(map)),
{
    let regions = regions_of(map);
    available_regions(&regions)
}

/// The firmware's name for memory of type `ty`.
pub open spec fn spec_memory_type_name(ty: u32) -> Seq<char> {
    if ty == 0 {
        "EfiReservedMemoryType"@
    } else if ty == 1 {
        "EfiLoaderCode"@
    } else if ty == 2 {
        "EfiLoaderData"@
    } else if ty == 3 {
        "EfiBootServicesCode"@
    } else if ty == 4 {
        "EfiBootServicesData"@
    } else if ty == 5 {
        "EfiRuntimeServicesCode"@
    } else if ty == 6 {
        "EfiRuntimeServicesData"@
    } else if ty == 7 {
        "EfiConventionalMemory"@
    } else if ty == 8 {
        "EfiUnusableMemory"@
    } else if ty == 9 {
        "EfiACPIReclaimMemory"@
    } else if ty == 10 {
        "EfiAcpiMemoryNVS"@
    } else if ty == 11 {
        "EfiMemoryMappedIO"@
    } else if ty == 12 {
        "EfiMemoryMappedIOPortSpace"@
    } else if ty == 13 {
        "EfiPalCode"@
    } else if ty == 14 {
        "EfiPersistentMemory"@
    } else {
        "InvalidMemoryType"@
    }
}

/// The firmware's name for memory of type `ty`; `InvalidMemoryType` for a
/// type that has none.
pub fn get_memory_type_unicode(ty: u32) -> (name: &'static str)
    ensures
        name@ == spec_memory_type_name(ty),
{
    match ty {
        0 => "EfiReservedMemoryType",
        1 => "EfiLoaderCode",
        2 => "EfiLoaderData",
        3 => "EfiBootServicesCode",
        4 => "EfiBootServicesData",
        5 => "EfiRuntimeServicesCode",
        6 => "EfiRuntimeServicesData",
        7 => "EfiConventionalMemory",
        8 => "EfiUnusableMemory",
        9 => "EfiACPIReclaimMemory",
        10 => "EfiAcpiMemoryNVS",
        11 => "EfiMemoryMappedIO",
        12 => "EfiMemoryMappedIOPortSpace",
        13 => "EfiPalCode",
        14 => "EfiPersistentMemory",
        _ => "InvalidMemoryType",
    }
}

/// The character for the hexadecimal digit `digit`: `0` to `9`, then `a`
/// to `f`.
pub open spec fn digit_char(digit: nat) -> u8 {
    if digit < 10 {
        (0x30 + digit) as u8
    } else {
        (0x61 + digit - 10) as u8
    }
}

/// `value` in decimal, most significant digit first, without leading
/// zeros; a single `0` for zero.
pub open spec fn decimal(value: nat) -> Seq<u8>
    decreases value,
{
    if value < 10 {
        seq![digit_char(value)]
    } else {
        decimal(value / 10).push(digit_char(value % 10))
    }
}

/// `value` in hexadecimal, most significant digit first, without leading
/// zeros; a single `0` for zero.
pub open spec fn hexadecimal(value: nat) -> Seq<u8>
    decreases value,
{
    if value < 16 {
        seq![digit_char(value)]
    } else {
        hexadecimal(value / 16).push(digit_char(value % 16))
    }
}

/// `value` in hexadecimal, filled up with zeros in front to at least
/// `width` digits.
pub open spec fn hex_padded(value: nat, width: nat) -> Seq<u8> {
    let written = hexadecimal(value);
    if written.len() >= width {
        written
    } else {
        Seq::new((width - written.len()) as nat, |i: int| 0x30u8) + written
    }
}

/// What separates the fields of a line: a comma and a blank.
pub open spec fn field_separator() -> Seq<u8> {
    seq![0x2cu8, 0x20u8]
}

/// The line that lists `region` as entry `index` of the memory map: the
/// index, the type's number, the type's name, the physical start in
/// hexadecimal with at least eight digits, the number of pages and the
/// attribute bits, separated by a comma and a blank and ended by a line
/// feed.
pub open spec fn spec_memory_map_line(index: usize, region: MemoryRegion) -> Seq<u8> {
    decimal(index as nat) + field_separator() + decimal(region.ty as nat) + field_separator()
        + vstd::utf8::encode_utf8(spec_memory_type_name(region.ty)) + field_separator()
        + hex_padded(region.phys_start as nat, 8) + field_separator() + decimal(
        region.page_count as nat,
    ) + field_separator() + decimal(region.att as nat) + seq![0x0au8]
}

fn digit_of(digit: u64) -> (c: u8)
    requires
        digit < 16,
    ensures
        c == digit_char(digit as nat),
{
    if digit < 10 {
        0x30 + digit as u8
    } else {
        0x61 + (digit as u8 - 10)
    }
}

/// Appends `value` in decimal.
fn push_decimal(out: &mut Vec<u8>, value: u64)
    ensures
        final(out)@ == old(out)@ + decimal(value as nat),
    decreases value,
{
    if value >= 10 {
        push_decimal(out, value / 10);
        out.push(digit_of(value % 10));
        assert(out@ =~= old(out)@ + decimal(value as nat));
    } else {
        out.push(digit_of(value));
        assert(out@ =~= old(out)@ + decimal(value as nat));
    }
}

/// Appends `value` in hexadecimal.
fn push_hexadecimal(out: &mut Vec<u8>, value: u64)
    ensures
        final(out)@ == old(out)@ + hexadecimal(value as nat),
    decreases value,
{
    if value >= 16 {
        push_hexadecimal(out, value / 16);
        out.push(digit_of(value % 16));
        assert(out@ =~= old(out)@ + hexadecimal(value as nat));
    } else {
        out.push(digit_of(value));
        assert(out@ =~= old(out)@ + hexadecimal(value as nat));
    }
}

/// Appends `value` in hexadecimal with at least `width` digits.
fn push_hex_padded(out: &mut Vec<u8>, value: u64, width: usize)
    ensures
        final(out)@ == old(out)@ + hex_padded(value as nat, width as nat),
{
    let mut written: Vec<u8> = Vec::new();
    push_hexadecimal(&mut written, value);
    assert(written@ =~= hexadecimal(value as nat));
    let mut filled: usize = written.len();
    while filled < width
        invariant
            written@.len() <= filled,
            filled <= width || filled == written@.len(),
            out@ == old(out)@ + Seq::new((filled - written@.len()) as nat, |i: int| 0x30u8),
        decreases width - filled,
    {
        out.push(0x30);
        filled = filled + 1;
        assert(out@ =~= old(out)@ + Seq::new((filled - written@.len()) as nat, |i: int| 0x30u8));
    }
    push_bytes(out, written.as_slice());
    assert(out@ =~= old(out)@ + hex_padded(value as nat, width as nat));
}

fn push_separator(out: &mut Vec<u8>)
    ensures
        final(out)@ == old(out)@ + field_separator(),
{
    out.push(0x2c);
    out.push(0x20);
    assert(out@ =~= old(out)@ + field_separator());
}

fn push_bytes(out: &mut Vec<u8>, bytes: &[u8])
    ensures
        final(out)@ == old(out)@ + bytes@,
{
    let mut i: usize = 0;
    while i < bytes.len()
        invariant
            i <= bytes.len(),
            out@ == old(out)@ + bytes@.subrange(0, i as int),
        decreases bytes.len() - i,
    {
        out.push(bytes[i]);
        assert(out@ =~= old(out)@ + bytes@.subrange(0, i + 1));
        i = i + 1;
    }
    assert(bytes@.subrange(0, bytes.len() as int) =~= bytes@);
}

/// The heading of the list of the memory map.
pub fn memory_map_header() -> (header: &'static str)
    ensures
        header@ == "Index, Type, Type(name), PhysicalStart, NumberOfPages, Attribute\n"@,
{
    "Index, Type, Type(name), PhysicalStart, NumberOfPages, Attribute\n"
}

/// Writes the line that lists `region` as entry `index`.
pub fn memory_map_line(index: usize, region: &MemoryRegion) -> (line: Vec<u8>)
    ensures
        line@ == spec_memory_map_line(index, *region),
{
    let mut line: Vec<u8> = Vec::new();
    push_decimal(&mut line, index as u64);
    push_separator(&mut line);
    push_decimal(&mut line, region.ty as u64);
    push_separator(&mut line);
    push_bytes(&mut line, get_memory_type_unicode(region.ty).as_bytes());
    push_separator(&mut line);
    push_hex_padded(&mut line, region.phys_start, 8);
    push_separator(&mut line);
    push_decimal(&mut line, region.page_count);
    push_separator(&mut line);
    push_decimal(&mut line, region.att);
    line.push(0x0a);
    assert(line@ =~= spec_memory_map_line(index, *region));
    line
}

/// The line that tells of a usable region on the console: its type, its
/// first and last address in hexadecimal with at least eight digits, its
/// number of pages and its attribute bits in hexadecimal. `None` for a
/// region without a last address.
pub open spec fn spec_region_line(region: MemoryRegion) -> Option<Seq<u8>> {
    match region.spec_phys_end() {
        None => None,
        Some(end) => Some(
            vstd::utf8::encode_utf8("type = "@) + decimal(region.ty as nat) + vstd::utf8::encode_utf8(
                ", phys = "@,
            ) + hex_padded(region.phys_start as nat, 8) + vstd::utf8::encode_utf8(" - "@)
                + hex_padded(end as nat, 8) + vstd::utf8::encode_utf8(", pages = "@) + decimal(
                region.page_count as nat,
            ) + vstd::utf8::encode_utf8(", attr = "@) + hex_padded(region.att as nat, 8)
                + seq![0x0au8],
        ),
    }
}

/// Writes the console line for a usable region.
pub fn region_line(region: &MemoryRegion) -> (line: Option<Vec<u8>>)
    ensures
        match line {
            Some(bytes) => spec_region_line(*region) == Some(bytes@),
            None => spec_region_line(*region) is None,
        },
{
    let end = match region.phys_end() {
        Some(end) => end,
        None => {
            return None;
        },
    };
    let mut line: Vec<u8> = Vec::new();
    push_bytes(&mut line, "type = ".as_bytes());
    push_decimal(&mut line, region.ty as u64);
    push_bytes(&mut line, ", phys = ".as_bytes());
    push_hex_padded(&mut line, region.phys_start, 8);
    push_bytes(&mut line, " - ".as_bytes());
    push_hex_padded(&mut line, end, 8);
    push_bytes(&mut line, ", pages = ".as_bytes());
    push_decimal(&mut line, region.page_count);
    push_bytes(&mut line, ", attr = ".as_bytes());
    push_hex_padded(&mut line, region.att, 8);
    line.push(0x0a);
    assert(line@ =~= spec_region_line(*region)->0);
    Some(line)
}

} // verus!
