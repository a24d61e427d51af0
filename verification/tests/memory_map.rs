use mikan_os::memory_map::{
    available_memory, available_regions, get_memory_type_unicode, is_available, memory_map_header,
    memory_map_line, region_line, regions_of, MemoryRegion, BOOT_SERVICES_CODE,
    BOOT_SERVICES_DATA, CONVENTIONAL, PAGE_SIZE,
};
use uefi::table::boot::{MemoryAttribute, MemoryDescriptor, MemoryMap, MemoryType};

fn descriptor(ty: MemoryType, phys_start: u64, page_count: u64, att: u64) -> MemoryDescriptor {
    MemoryDescriptor {
        ty,
        phys_start,
        virt_start: 0,
        page_count,
        att: MemoryAttribute::from_bits_retain(att),
    }
}

fn descriptors() -> Vec<MemoryDescriptor> {
    vec![
        descriptor(MemoryType::BOOT_SERVICES_CODE, 0x0000, 1, 0xf),
        descriptor(MemoryType::CONVENTIONAL, 0x1000, 159, 0xf),
        descriptor(MemoryType::RESERVED, 0xa_0000, 96, 0),
        descriptor(MemoryType::LOADER_DATA, 0x10_0000, 0x700, 0xf),
        descriptor(MemoryType::BOOT_SERVICES_DATA, 0x80_0000, 8, 0xf),
        descriptor(MemoryType::MMIO, 0xfec0_0000, 1, 0x8000_0000_0000_0001),
    ]
}

/// A memory map over `storage` that holds `entries`, each in a slot of
/// `entry_size` bytes.
fn map_of<'a>(storage: &'a mut Vec<u8>, entries: &[MemoryDescriptor], entry_size: usize) -> MemoryMap<'a> {
    storage.clear();
    storage.resize(entry_size * entries.len() + 16, 0);
    let skip = storage.as_ptr().align_offset(8);
    let buffer = &mut storage[skip..skip + entry_size * entries.len()];
    let mut map = MemoryMap::from_raw(buffer, entry_size);
    for (index, entry) in entries.iter().enumerate() {
        *map.get_mut(index).unwrap() = *entry;
    }
    map
}

#[test]
fn regions_are_read_from_the_firmware_map() {
    let mut storage = Vec::new();
    let map = map_of(&mut storage, &descriptors(), 48);
    let regions = regions_of(&map);
    assert_eq!(
        regions,
        vec![
            MemoryRegion { ty: 3, phys_start: 0x0000, page_count: 1, att: 0xf },
            MemoryRegion { ty: 7, phys_start: 0x1000, page_count: 159, att: 0xf },
            MemoryRegion { ty: 0, phys_start: 0xa_0000, page_count: 96, att: 0 },
            MemoryRegion { ty: 2, phys_start: 0x10_0000, page_count: 0x700, att: 0xf },
            MemoryRegion { ty: 4, phys_start: 0x80_0000, page_count: 8, att: 0xf },
            MemoryRegion { ty: 11, phys_start: 0xfec0_0000, page_count: 1, att: 0x8000_0000_0000_0001 },
        ]
    );
}

#[test]
fn usable_regions_are_picked_from_the_firmware_map() {
    let mut storage = Vec::new();
    let map = map_of(&mut storage, &descriptors(), 40);
    assert_eq!(
        available_memory(&map),
        vec![
            MemoryRegion { ty: 3, phys_start: 0x0000, page_count: 1, att: 0xf },
            MemoryRegion { ty: 7, phys_start: 0x1000, page_count: 159, att: 0xf },
            MemoryRegion { ty: 4, phys_start: 0x80_0000, page_count: 8, att: 0xf },
        ]
    );
}

#[test]
fn empty_firmware_map_has_no_regions() {
    let mut storage = Vec::new();
    let map = map_of(&mut storage, &[], 40);
    assert_eq!(regions_of(&map), Vec::new());
    assert_eq!(available_memory(&map), Vec::new());
}

#[test]
fn only_boot_services_and_free_memory_are_usable() {
    for ty in 0..32u32 {
        assert_eq!(is_available(ty), ty == 3 || ty == 4 || ty == 7);
    }
    assert!(!is_available(0x8000_0000));
    let regions = vec![
        MemoryRegion { ty: 1, phys_start: 0, page_count: 1, att: 0 },
        MemoryRegion { ty: 7, phys_start: 0x1000, page_count: 2, att: 0 },
        MemoryRegion { ty: 7, phys_start: 0x3000, page_count: 3, att: 0 },
        MemoryRegion { ty: 5, phys_start: 0x6000, page_count: 1, att: 0 },
    ];
    assert_eq!(available_regions(&regions), vec![regions[1], regions[2]]);
    assert_eq!(available_regions(&Vec::new()), Vec::new());
}

#[test]
fn region_end_is_its_last_byte() {
    let region = |phys_start, page_count| MemoryRegion { ty: 7, phys_start, page_count, att: 0 };
    assert_eq!(region(0x10_0000, 0x100).phys_end(), Some(0x1f_ffff));
    assert_eq!(region(0, 1).phys_end(), Some(0xfff));
    assert_eq!(region(0x1000, 0).phys_end(), Some(0xfff));
    assert_eq!(region(0, 0).phys_end(), None);
    assert_eq!(region(0xffff_ffff_ffff_f000, 1).phys_end(), None);
    assert_eq!(region(0xffff_ffff_ffff_e000, 1).phys_end(), Some(0xffff_ffff_ffff_efff));
    assert_eq!(region(0, 0x10_0000_0000_0000).phys_end(), None);
    assert_eq!(region(0, 0xf_ffff_ffff_ffff).phys_end(), Some(0xffff_ffff_ffff_efff));
}

#[test]
fn memory_types_are_named() {
    let names = [
        "EfiReservedMemoryType",
        "EfiLoaderCode",
        "EfiLoaderData",
        "EfiBootServicesCode",
        "EfiBootServicesData",
        "EfiRuntimeServicesCode",
        "EfiRuntimeServicesData",
        "EfiConventionalMemory",
        "EfiUnusableMemory",
        "EfiACPIReclaimMemory",
        "EfiAcpiMemoryNVS",
        "EfiMemoryMappedIO",
        "EfiMemoryMappedIOPortSpace",
        "EfiPalCode",
        "EfiPersistentMemory",
    ];
    for (ty, name) in names.iter().enumerate() {
        assert_eq!(get_memory_type_unicode(ty as u32), *name);
    }
    assert_eq!(get_memory_type_unicode(15), "InvalidMemoryType");
    assert_eq!(get_memory_type_unicode(0x8000_0000), "InvalidMemoryType");
    assert_eq!(get_memory_type_unicode(MemoryType::CONVENTIONAL.0), "EfiConventionalMemory");
    assert_eq!(get_memory_type_unicode(MemoryType::PERSISTENT_MEMORY.0), "EfiPersistentMemory");
}

#[test]
fn memory_map_is_listed_line_by_line() {
    assert_eq!(
        memory_map_header(),
        "Index, Type, Type(name), PhysicalStart, NumberOfPages, Attribute\n"
    );
    let region = MemoryRegion { ty: 7, phys_start: 0x10_0000, page_count: 1792, att: 15 };
    assert_eq!(
        memory_map_line(3, &region),
        format!(
            "{}, {}, {}, {:08x}, {}, {}\n",
            3, 7, "EfiConventionalMemory", 0x10_0000u64, 1792u64, 15u64
        )
        .into_bytes()
    );
    assert_eq!(
        String::from_utf8(memory_map_line(3, &region)).unwrap(),
        "3, 7, EfiConventionalMemory, 00100000, 1792, 15\n"
    );
    let wide = MemoryRegion {
        ty: 0xffff_ffff,
        phys_start: 0xfedc_ba98_7654_3210,
        page_count: u64::MAX,
        att: 0,
    };
    assert_eq!(
        String::from_utf8(memory_map_line(usize::MAX, &wide)).unwrap(),
        format!(
            "{}, 4294967295, InvalidMemoryType, fedcba9876543210, 18446744073709551615, 0\n",
            usize::MAX
        )
    );
    let zero = MemoryRegion { ty: 0, phys_start: 0, page_count: 0, att: 0 };
    assert_eq!(
        String::from_utf8(memory_map_line(0, &zero)).unwrap(),
        "0, 0, EfiReservedMemoryType, 00000000, 0, 0\n"
    );
}

#[test]
fn usable_region_is_told_on_one_line() {
    let region = MemoryRegion { ty: 7, phys_start: 0x10_0000, page_count: 256, att: 0xf };
    assert_eq!(
        String::from_utf8(region_line(&region).unwrap()).unwrap(),
        "type = 7, phys = 00100000 - 001fffff, pages = 256, attr = 0000000f\n"
    );
    let high = MemoryRegion { ty: 4, phys_start: 0x1_0000_0000, page_count: 1, att: 0x8000_0000_0000_000f };
    assert_eq!(
        String::from_utf8(region_line(&high).unwrap()).unwrap(),
        "type = 4, phys = 100000000 - 100000fff, pages = 1, attr = 800000000000000f\n"
    );
    assert_eq!(region_line(&MemoryRegion { ty: 7, phys_start: 0, page_count: 0, att: 0 }), None);
}

#[test]
fn usable_memory_types_are_those_of_the_firmware() {
    assert_eq!(BOOT_SERVICES_CODE, MemoryType::BOOT_SERVICES_CODE.0);
    assert_eq!(BOOT_SERVICES_DATA, MemoryType::BOOT_SERVICES_DATA.0);
    assert_eq!(CONVENTIONAL, MemoryType::CONVENTIONAL.0);
    assert_eq!(PAGE_SIZE, 4096);
    for ty in [
        MemoryType::BOOT_SERVICES_CODE,
        MemoryType::BOOT_SERVICES_DATA,
        MemoryType::CONVENTIONAL,
    ] {
        assert!(is_available(ty.0));
    }
    for ty in [
        MemoryType::RESERVED,
        MemoryType::LOADER_CODE,
        MemoryType::LOADER_DATA,
        MemoryType::RUNTIME_SERVICES_CODE,
        MemoryType::RUNTIME_SERVICES_DATA,
        MemoryType::UNUSABLE,
        MemoryType::ACPI_RECLAIM,
        MemoryType::ACPI_NON_VOLATILE,
        MemoryType::MMIO,
        MemoryType::MMIO_PORT_SPACE,
        MemoryType::PAL_CODE,
        MemoryType::PERSISTENT_MEMORY,
    ] {
        assert!(!is_available(ty.0));
    }
    let names = [
        (MemoryType::RESERVED, "EfiReservedMemoryType"),
        (MemoryType::LOADER_CODE, "EfiLoaderCode"),
        (MemoryType::LOADER_DATA, "EfiLoaderData"),
        (MemoryType::BOOT_SERVICES_CODE, "EfiBootServicesCode"),
        (MemoryType::BOOT_SERVICES_DATA, "EfiBootServicesData"),
        (MemoryType::RUNTIME_SERVICES_CODE, "EfiRuntimeServicesCode"),
        (MemoryType::RUNTIME_SERVICES_DATA, "EfiRuntimeServicesData"),
        (MemoryType::CONVENTIONAL, "EfiConventionalMemory"),
        (MemoryType::UNUSABLE, "EfiUnusableMemory"),
        (MemoryType::ACPI_RECLAIM, "EfiACPIReclaimMemory"),
        (MemoryType::ACPI_NON_VOLATILE, "EfiAcpiMemoryNVS"),
        (MemoryType::MMIO, "EfiMemoryMappedIO"),
        (MemoryType::MMIO_PORT_SPACE, "EfiMemoryMappedIOPortSpace"),
        (MemoryType::PAL_CODE, "EfiPalCode"),
        (MemoryType::PERSISTENT_MEMORY, "EfiPersistentMemory"),
    ];
    for (ty, name) in names {
        assert_eq!(get_memory_type_unicode(ty.0), name);
    }
}
