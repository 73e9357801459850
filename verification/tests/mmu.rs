use kernel_mmu::descriptors::{
    AccessPermissions, AttributeFields, MMIODescriptor, MemAttributes, PageSliceDescriptor,
};
use kernel_mmu::fixed_table::FixedSizeTranslationTable;
use kernel_mmu::mapping_record::{MappingRecord, MappingRecordEntry, MAPPING_RECORD_CAPACITY};
use kernel_mmu::mmu::{
    enable_mmu_and_caching, kernel_add_mapping_record, kernel_map_binary, kernel_map_mmio,
    kernel_map_pages_at, kernel_print_mappings, try_virt_to_phys, KernelAddressSpace,
    MMUEnableError, MemoryManagementUnit, TranslationError, MMU,
};
use kernel_mmu::translation_table::TranslationTable;
use kernel_mmu::types::{
    arch_address_space_size_sanity_checks, is_power_of_two_usize, log2_usize, Address,
    AddressSpace, KernelGranule, Physical, TranslationGranule, Virtual, KERNEL_GRANULE_SIZE,
};

type Kernel = KernelAddressSpace<FixedSizeTranslationTable, MemoryManagementUnit>;

const PAGE: usize = 0x1_0000;

fn normal_rw() -> AttributeFields {
    AttributeFields {
        mem_attributes: MemAttributes::CacheableDRAM,
        acc_perms: AccessPermissions::ReadWrite,
        execute_never: true,
    }
}

fn code_rx() -> AttributeFields {
    AttributeFields {
        mem_attributes: MemAttributes::CacheableDRAM,
        acc_perms: AccessPermissions::ReadOnly,
        execute_never: false,
    }
}

fn virt(page: usize, count: usize) -> PageSliceDescriptor<Virtual> {
    let start = Address::new(page * PAGE);
    assert!(PageSliceDescriptor::is_valid(start, count));
    PageSliceDescriptor::from_addr(start, count)
}

fn phys(page: usize, count: usize) -> PageSliceDescriptor<Physical> {
    let start = Address::new(page * PAGE);
    assert!(PageSliceDescriptor::is_valid(start, count));
    PageSliceDescriptor::from_addr(start, count)
}

fn window(start: usize, size: usize) -> MMIODescriptor {
    let start = Address::new(start);
    assert!(MMIODescriptor::is_valid(start, size));
    MMIODescriptor::new(start, size)
}

/// Tables of 64 pages, the last 8 of them reserved, not prepared yet.
fn fresh_kernel() -> Kernel {
    let tables = FixedSizeTranslationTable::new(64, 8, Address::new(0x8_0000)).unwrap();
    KernelAddressSpace::new(tables, MemoryManagementUnit::new())
}

/// The same, with the tables prepared.
fn ready_kernel() -> Kernel {
    let mut kernel = fresh_kernel();
    kernel.tables.init();
    kernel
}

#[test]
fn granule_mask_and_shift_of_powers_of_two() {
    assert!(TranslationGranule::<0x1_0000>::is_valid());
    assert_eq!(TranslationGranule::<0x1_0000>::size_checked(), 0x1_0000);
    assert_eq!(TranslationGranule::<0x1_0000>::mask(), 0xFFFF);
    assert_eq!(TranslationGranule::<0x1_0000>::shift(), 16);
    assert_eq!(TranslationGranule::<4096>::mask(), 4095);
    assert_eq!(TranslationGranule::<4096>::shift(), 12);
    assert_eq!(TranslationGranule::<1>::mask(), 0);
    assert_eq!(TranslationGranule::<1>::shift(), 0);
    assert_eq!(KernelGranule::size_checked(), KERNEL_GRANULE_SIZE);
}

#[test]
fn granule_of_other_sizes_is_not_valid() {
    assert!(!TranslationGranule::<0>::is_valid());
    assert!(!TranslationGranule::<3>::is_valid());
    assert!(!TranslationGranule::<0x1_0001>::is_valid());
    assert!(!TranslationGranule::<{ usize::MAX }>::is_valid());
}

#[test]
fn power_of_two_test_and_logarithm() {
    assert!(is_power_of_two_usize(1));
    assert!(is_power_of_two_usize(2));
    assert!(is_power_of_two_usize(1 << 40));
    assert!(is_power_of_two_usize(1 << (usize::BITS - 1)));
    assert!(!is_power_of_two_usize(0));
    assert!(!is_power_of_two_usize(6));
    assert!(!is_power_of_two_usize((1 << 40) + 1));
    assert_eq!(log2_usize(1), 0);
    assert_eq!(log2_usize(1 << 40), 40);
    assert_eq!(log2_usize(1 << (usize::BITS - 1)), (usize::BITS - 1) as usize);
}

#[test]
fn address_space_size_limits() {
    assert!(AddressSpace::<{ 1 << 33 }>::is_valid());
    assert_eq!(AddressSpace::<{ 1 << 33 }>::size_checked(), 1 << 33);
    assert_eq!(AddressSpace::<{ 1 << 33 }>::size_shift(), 33);
    assert!(AddressSpace::<{ 1 << 29 }>::is_valid());
    assert!(AddressSpace::<{ 1 << 48 }>::is_valid());
    assert!(!AddressSpace::<{ 1 << 28 }>::is_valid());
    assert!(!AddressSpace::<{ 1 << 49 }>::is_valid());
    assert!(!AddressSpace::<{ (1 << 33) + (1 << 29) }>::is_valid());
    assert!(arch_address_space_size_sanity_checks(1 << 30));
    assert!(!arch_address_space_size_sanity_checks(0));
}

#[test]
fn address_arithmetic_keeps_the_kind() {
    let a: Address<Virtual> = Address::new(0x1234_5678);
    assert_eq!(a.into_usize(), 0x1234_5678);
    assert_eq!(a.checked_add(8), Some(Address::new(0x1234_5680)));
    assert_eq!(Address::<Physical>::new(usize::MAX).checked_add(1), None);
    assert_eq!(Address::<Physical>::new(usize::MAX - 1).checked_add(1), Some(Address::new(usize::MAX)));
    assert_eq!(a.offset_into_page(), 0x5678);
    assert_eq!(a.align_down_page(), Address::new(0x1234_0000));
    assert!(!a.is_page_aligned());
    assert!(a.align_down_page().is_page_aligned());
}

#[test]
fn page_slice_accessors() {
    let s = virt(3, 2);
    assert_eq!(s.start_addr(), Address::new(0x3_0000));
    assert_eq!(s.num_pages(), 2);
    assert_eq!(s.size(), 0x2_0000);
    assert_eq!(s.end_addr(), Address::new(0x5_0000));
    assert_eq!(s.end_addr_inclusive(), Address::new(0x4_FFFF));
    assert!(s.contains(Address::new(0x3_0000)));
    assert!(s.contains(Address::new(0x4_FFFF)));
    assert!(!s.contains(Address::new(0x5_0000)));
    assert!(!s.contains(Address::new(0x2_FFFF)));
    assert!(s.same_as(&virt(3, 2)));
    assert!(!s.same_as(&virt(3, 1)));
    assert!(!s.same_as(&virt(2, 2)));
}

#[test]
fn page_slice_validity() {
    assert!(!PageSliceDescriptor::<Virtual>::is_valid(Address::new(0x1_0001), 1));
    assert!(!PageSliceDescriptor::<Virtual>::is_valid(Address::new(0x1_0000), 0));
    assert!(!PageSliceDescriptor::<Virtual>::is_valid(Address::new(0x1_0000), usize::MAX));
    assert!(!PageSliceDescriptor::<Virtual>::is_valid(Address::new(0), usize::MAX / PAGE + 1));
    assert!(PageSliceDescriptor::<Virtual>::is_valid(Address::new(0), usize::MAX / PAGE));
}

#[test]
fn mmio_descriptor_rounds_outward_to_pages() {
    let d = window(0x3F20_1000, 0x100);
    assert_eq!(d.start_addr(), Address::new(0x3F20_1000));
    assert_eq!(d.size(), 0x100);
    assert_eq!(d.end_addr_inclusive(), Address::new(0x3F20_10FF));
    let p = d.to_page_slice();
    assert_eq!(p.start_addr(), Address::new(0x3F20_0000));
    assert_eq!(p.num_pages(), 1);
    assert_eq!(d.start_addr().offset_into_page(), 0x1000);

    let crossing = window(0x1_FFF0, 0x20);
    let p = crossing.to_page_slice();
    assert_eq!(p.start_addr(), Address::new(0x1_0000));
    assert_eq!(p.num_pages(), 2);

    let exact = window(0x4_0000, 0x3_0000);
    let p = exact.to_page_slice();
    assert_eq!(p.start_addr(), Address::new(0x4_0000));
    assert_eq!(p.num_pages(), 3);

    let one_more = window(0x4_0000, 0x3_0001);
    assert_eq!(one_more.to_page_slice().num_pages(), 4);
}

#[test]
fn mmio_descriptor_validity() {
    assert!(!MMIODescriptor::is_valid(Address::new(0x1000), 0));
    assert!(!MMIODescriptor::is_valid(Address::new(usize::MAX), 2));
    assert!(!MMIODescriptor::is_valid(Address::new(usize::MAX - 0x10), 4));
    assert!(MMIODescriptor::is_valid(Address::new(usize::MAX - 2 * PAGE), 4));
}

#[test]
fn table_geometry() {
    assert!(FixedSizeTranslationTable::new(64, 65, Address::new(0)).is_none());
    assert!(FixedSizeTranslationTable::new(8, 8, Address::new(0)).is_some());
    assert!(FixedSizeTranslationTable::new(0, 0, Address::new(0)).is_some());
    let t = FixedSizeTranslationTable::new(64, 8, Address::new(0x8_0000)).unwrap();
    assert_eq!(t.phys_base_address(), Address::new(0x8_0000));
}

#[test]
fn map_then_translate_keeps_the_offset() {
    let mut kernel = ready_kernel();
    assert_eq!(kernel_map_pages_at(&mut kernel, "data", &virt(2, 2), &phys(0x10, 2), &normal_rw()), Ok(()));
    assert!(enable_mmu_and_caching(&mut kernel, Address::new(0x8_0000)).is_ok());
    assert_eq!(try_virt_to_phys(&kernel, Address::new(0x2_0000)), Ok(Address::new(0x10_0000)));
    assert_eq!(try_virt_to_phys(&kernel, Address::new(0x2_0123)), Ok(Address::new(0x10_0123)));
    assert_eq!(try_virt_to_phys(&kernel, Address::new(0x3_FFFF)), Ok(Address::new(0x11_FFFF)));
    assert_eq!(try_virt_to_phys(&kernel, Address::new(0x4_0000)), Err(TranslationError::Aborted));
    assert_eq!(try_virt_to_phys(&kernel, Address::new(0x1_FFFF)), Err(TranslationError::Aborted));
}

#[test]
fn manual_mapping_into_the_mmio_region_is_refused() {
    let mut kernel = ready_kernel();
    let r = kernel_map_pages_at(&mut kernel, "rogue", &virt(56, 1), &phys(0x20, 1), &normal_rw());
    assert_eq!(r, Err("Attempt to manually map into MMIO region"));
    let r = kernel_map_pages_at(&mut kernel, "rogue", &virt(55, 2), &phys(0x20, 2), &normal_rw());
    assert_eq!(r, Err("Attempt to manually map into MMIO region"));
    let r = kernel_map_pages_at(&mut kernel, "rogue", &virt(63, 1), &phys(0x20, 1), &normal_rw());
    assert_eq!(r, Err("Attempt to manually map into MMIO region"));
    assert_eq!(kernel.record.len(), 0);
    assert!(enable_mmu_and_caching(&mut kernel, Address::new(0x8_0000)).is_ok());
    assert_eq!(try_virt_to_phys(&kernel, Address::new(56 * PAGE)), Err(TranslationError::Aborted));
    assert_eq!(try_virt_to_phys(&kernel, Address::new(55 * PAGE)), Err(TranslationError::Aborted));
    // The page below the region can be mapped by hand.
    let r = kernel_map_pages_at(&mut kernel, "fine", &virt(55, 1), &phys(0x20, 1), &normal_rw());
    assert_eq!(r, Ok(()));
}

#[test]
fn table_classifies_runs_against_the_mmio_region() {
    let kernel = ready_kernel();
    assert!(!kernel.tables.is_virt_page_slice_mmio(&virt(0, 56)));
    assert!(kernel.tables.is_virt_page_slice_mmio(&virt(0, 57)));
    assert!(kernel.tables.is_virt_page_slice_mmio(&virt(56, 8)));
    assert!(kernel.tables.is_virt_page_slice_mmio(&virt(63, 4)));
    assert!(!kernel.tables.is_virt_page_slice_mmio(&virt(64, 1)));
}

#[test]
fn raw_mapping_errors() {
    let mut kernel = fresh_kernel();
    let r = kernel_map_pages_at(&mut kernel, "early", &virt(0, 1), &phys(0, 1), &normal_rw());
    assert_eq!(r, Err("Translation tables are not initialized"));
    kernel.tables.init();
    let r = kernel_map_pages_at(&mut kernel, "a", &virt(0, 2), &phys(0, 3), &normal_rw());
    assert_eq!(r, Err("Tried to map page slices with unequal sizes"));
    let r = kernel_map_pages_at(&mut kernel, "a", &virt(64, 2), &phys(0, 2), &normal_rw());
    assert_eq!(r, Err("Tried to map outside of virtual address space"));
    assert_eq!(kernel_map_pages_at(&mut kernel, "a", &virt(4, 2), &phys(0, 2), &normal_rw()), Ok(()));
    let r = kernel_map_pages_at(&mut kernel, "b", &virt(3, 2), &phys(8, 2), &normal_rw());
    assert_eq!(r, Err("Virtual page is already mapped"));
    // The refused request mapped none of its pages.
    assert!(enable_mmu_and_caching(&mut kernel, Address::new(0)).is_ok());
    assert_eq!(try_virt_to_phys(&kernel, Address::new(3 * PAGE)), Err(TranslationError::Aborted));
    assert_eq!(try_virt_to_phys(&kernel, Address::new(4 * PAGE + 1)), Ok(Address::new(1)));
    assert_eq!(kernel.record.len(), 1);
}

#[test]
fn mmio_same_window_twice_gives_the_same_address() {
    let mut kernel = ready_kernel();
    let d = window(0x3F20_1000, 0x100);
    let a = kernel_map_mmio(&mut kernel, "uart", &d);
    let b = kernel_map_mmio(&mut kernel, "gpio", &window(0x3F20_1000, 0x100));
    assert_eq!(a, Ok(Address::new(56 * PAGE + 0x1000)));
    assert_eq!(b, a);
    assert_eq!(kernel.record.len(), 2);
    let first = kernel.record.get(0).unwrap();
    let second = kernel.record.get(1).unwrap();
    assert_eq!(first.name, "uart");
    assert_eq!(second.name, "gpio");
    assert_eq!(first.virt_pages, second.virt_pages);
    assert_eq!(first.phys_pages, second.phys_pages);
    assert_eq!(first.virt_pages, virt(56, 1));
    assert_eq!(first.phys_pages, phys(0x3F20, 1));
    assert_eq!(first.attribute_fields, second.attribute_fields);
    assert_eq!(first.attribute_fields.mem_attributes, MemAttributes::Device);
    assert_eq!(first.attribute_fields.acc_perms, AccessPermissions::ReadWrite);
    assert!(first.attribute_fields.execute_never);
    assert!(kernel.record.get(2).is_none());
    // Another offset into the same page is served by the same mapping.
    let c = kernel_map_mmio(&mut kernel, "timer", &window(0x3F20_3000, 0x10));
    assert_eq!(c, Ok(Address::new(56 * PAGE + 0x3000)));
    // The mapping translates to the window.
    assert!(enable_mmu_and_caching(&mut kernel, Address::new(0x8_0000)).is_ok());
    assert_eq!(try_virt_to_phys(&kernel, a.unwrap()), Ok(Address::new(0x3F20_1000)));
}

#[test]
fn mmio_overlapping_windows_get_pages_of_their_own() {
    let mut kernel = ready_kernel();
    let a = kernel_map_mmio(&mut kernel, "one", &window(0x3F20_0000, 0x1_0000));
    let b = kernel_map_mmio(&mut kernel, "two", &window(0x3F20_0000, 0x1_0001));
    assert_eq!(a, Ok(Address::new(56 * PAGE)));
    assert_eq!(b, Ok(Address::new(57 * PAGE)));
    assert_eq!(kernel.record.len(), 2);
    assert_eq!(kernel.record.get(1).unwrap().virt_pages, virt(57, 2));
    assert_eq!(kernel.record.get(1).unwrap().phys_pages, phys(0x3F20, 2));
}

#[test]
fn mmu_is_enabled_once() {
    let mut kernel = ready_kernel();
    assert!(!kernel.mmu.is_enabled());
    assert!(enable_mmu_and_caching(&mut kernel, Address::new(0x8_0000)).is_ok());
    assert!(kernel.mmu.is_enabled());
    assert_eq!(kernel.mmu.tables_base, 0x8_0000);
    let again = enable_mmu_and_caching(&mut kernel, Address::new(0x9_0000));
    assert!(matches!(again, Err(MMUEnableError::AlreadyEnabled)));
    assert!(kernel.mmu.is_enabled());
    assert_eq!(kernel.mmu.tables_base, 0x8_0000);
}

#[test]
fn enable_error_in_words() {
    assert_eq!(MMUEnableError::AlreadyEnabled.to_string(), "MMU is already enabled");
    assert_eq!(MMUEnableError::Other("Translation granule not supported in HW").to_string(), "Translation granule not supported in HW");
}

#[test]
fn translation_fails_while_disabled_and_on_unmapped_pages() {
    let mut kernel = ready_kernel();
    assert_eq!(kernel_map_pages_at(&mut kernel, "data", &virt(2, 1), &phys(5, 1), &normal_rw()), Ok(()));
    assert_eq!(try_virt_to_phys(&kernel, Address::new(2 * PAGE)), Err(TranslationError::MMUDisabled));
    assert_eq!(try_virt_to_phys(&kernel, Address::new(9 * PAGE)), Err(TranslationError::MMUDisabled));
    assert!(enable_mmu_and_caching(&mut kernel, Address::new(0x8_0000)).is_ok());
    assert_eq!(try_virt_to_phys(&kernel, Address::new(2 * PAGE)), Ok(Address::new(5 * PAGE)));
    assert_eq!(try_virt_to_phys(&kernel, Address::new(9 * PAGE)), Err(TranslationError::Aborted));
    assert_eq!(try_virt_to_phys(&kernel, Address::new(64 * PAGE)), Err(TranslationError::Aborted));
    assert_eq!(try_virt_to_phys(&kernel, Address::new(usize::MAX)), Err(TranslationError::Aborted));
}

#[test]
fn mmio_region_runs_out() {
    let mut kernel = ready_kernel();
    let a = kernel_map_mmio(&mut kernel, "big", &window(0x4000_0000, 6 * PAGE));
    assert_eq!(a, Ok(Address::new(56 * PAGE)));
    let b = kernel_map_mmio(&mut kernel, "rest", &window(0x5000_0000, 2 * PAGE));
    assert_eq!(b, Ok(Address::new(62 * PAGE)));
    let c = kernel_map_mmio(&mut kernel, "late", &window(0x6000_0000, 1));
    assert_eq!(c, Err("Not enough MMIO space left"));
    assert_eq!(kernel.record.len(), 2);
    let again = kernel_map_mmio(&mut kernel, "again", &window(0x4000_0010, 6 * PAGE - 0x10));
    assert_eq!(again, Ok(Address::new(56 * PAGE + 0x10)));
    assert_eq!(kernel.record.len(), 3);
}

#[test]
fn mmio_request_too_large_leaves_the_region_as_it_was() {
    let mut kernel = ready_kernel();
    let a = kernel_map_mmio(&mut kernel, "huge", &window(0x4000_0000, 9 * PAGE));
    assert_eq!(a, Err("Not enough MMIO space left"));
    let b = kernel_map_mmio(&mut kernel, "fits", &window(0x4000_0000, 8 * PAGE));
    assert_eq!(b, Ok(Address::new(56 * PAGE)));
}

#[test]
fn mmio_before_the_tables_are_prepared() {
    let mut kernel = fresh_kernel();
    let a = kernel_map_mmio(&mut kernel, "early", &window(0x4000_0000, 4));
    assert_eq!(a, Err("Translation tables are not initialized"));
    assert_eq!(kernel.record.len(), 0);
}

#[test]
fn table_hands_out_mmio_pages_in_turn() {
    let mut t = FixedSizeTranslationTable::new(16, 4, Address::new(0)).unwrap();
    assert_eq!(t.next_mmio_virt_page_slice(1), Err("Translation tables are not initialized"));
    t.init();
    assert_eq!(t.next_mmio_virt_page_slice(0), Err("num_pages == 0"));
    assert_eq!(t.next_mmio_virt_page_slice(3), Ok(virt(12, 3)));
    // Preparing the tables again does not hand the pages out again.
    t.init();
    assert_eq!(t.next_mmio_virt_page_slice(2), Err("Not enough MMIO space left"));
    assert_eq!(t.next_mmio_virt_page_slice(1), Ok(virt(15, 1)));
    assert_eq!(t.next_mmio_virt_page_slice(1), Err("Not enough MMIO space left"));
}

#[test]
fn full_record_loses_entries_but_not_mappings() {
    let mut kernel = ready_kernel();
    for i in 0..MAPPING_RECORD_CAPACITY {
        let w = kernel_add_mapping_record(&mut kernel, "filler", &virt(i, 1), &phys(i, 1), &normal_rw());
        assert_eq!(w, None);
    }
    assert_eq!(kernel.record.len(), MAPPING_RECORD_CAPACITY);
    let w = kernel_add_mapping_record(&mut kernel, "lost", &virt(20, 1), &phys(20, 1), &normal_rw());
    assert_eq!(w, Some("Storage for mapping info exhausted"));
    assert_eq!(kernel.record.len(), MAPPING_RECORD_CAPACITY);
    assert_eq!(kernel_map_pages_at(&mut kernel, "kept", &virt(30, 1), &phys(40, 1), &normal_rw()), Ok(()));
    assert_eq!(kernel.record.len(), MAPPING_RECORD_CAPACITY);
    assert!(enable_mmu_and_caching(&mut kernel, Address::new(0)).is_ok());
    assert_eq!(try_virt_to_phys(&kernel, Address::new(30 * PAGE + 7)), Ok(Address::new(40 * PAGE + 7)));
    // A window whose pages are on record is still found.
    let a = kernel_map_mmio(&mut kernel, "dup", &window(3 * PAGE + 4, 8));
    assert_eq!(a, Ok(Address::new(3 * PAGE + 4)));
    assert_eq!(kernel.record.len(), MAPPING_RECORD_CAPACITY);
}

#[test]
fn record_add_and_find() {
    let mut record = MappingRecord::new();
    assert_eq!(record.len(), 0);
    assert_eq!(record.find_duplicate(&phys(7, 2)), None);
    assert_eq!(record.add("a", &virt(1, 2), &phys(7, 2), &normal_rw()), Ok(()));
    assert_eq!(record.add("b", &virt(3, 1), &phys(9, 1), &normal_rw()), Ok(()));
    assert_eq!(record.add("c", &virt(5, 2), &phys(7, 2), &normal_rw()), Ok(()));
    assert_eq!(record.find_duplicate(&phys(7, 2)), Some(0));
    assert_eq!(record.find_duplicate(&phys(9, 1)), Some(1));
    assert_eq!(record.find_duplicate(&phys(7, 1)), None);
    assert_eq!(record.find_duplicate(&phys(7, 3)), None);
    assert_eq!(record.find_duplicate(&phys(8, 2)), None);
    let hit = record.find_and_insert_mmio_duplicate(&window(7 * PAGE + 5, PAGE), "d");
    assert_eq!(hit, Some(Address::new(PAGE)));
    assert_eq!(record.len(), 4);
    let last = record.get(3).unwrap();
    assert_eq!(last.name, "d");
    assert_eq!(last.virt_pages, virt(1, 2));
    assert_eq!(last.phys_pages, phys(7, 2));
    let miss = record.find_and_insert_mmio_duplicate(&window(7 * PAGE, PAGE), "e");
    assert_eq!(miss, None);
    assert_eq!(record.len(), 4);
}

#[test]
fn print_is_in_insertion_order() {
    let mut kernel = ready_kernel();
    assert_eq!(kernel_map_pages_at(&mut kernel, "Kernel code and RO data", &virt(2, 2), &phys(0x10, 2), &code_rx()), Ok(()));
    assert_eq!(kernel_map_pages_at(&mut kernel, "Kernel data and bss", &virt(4, 1), &phys(0x12, 1), &normal_rw()), Ok(()));
    assert!(kernel_map_mmio(&mut kernel, "PL011 UART", &window(0x3F20_1000, 0x100)).is_ok());
    assert!(kernel_map_mmio(&mut kernel, "GPIO", &window(0x3F20_1000, 0x100)).is_ok());
    let lines = kernel_print_mappings(&kernel);
    let expected = vec![
        "Virtual                                      Physical                                 Attr        Entity",
        "0x0000000000020000..0x000000000003FFFF --> 0x0000000000100000..0x000000000011FFFF | C   RO X  | Kernel code and RO data",
        "0x0000000000040000..0x000000000004FFFF --> 0x0000000000120000..0x000000000012FFFF | C   RW XN | Kernel data and bss",
        "0x0000000000380000..0x000000000038FFFF --> 0x000000003F200000..0x000000003F20FFFF | Dev RW XN | PL011 UART",
        "0x0000000000380000..0x000000000038FFFF --> 0x000000003F200000..0x000000003F20FFFF | Dev RW XN | GPIO",
    ];
    assert_eq!(lines, expected);
    assert_eq!(kernel_print_mappings(&kernel), lines);
    assert_eq!(kernel.record.print(), lines);
}

#[test]
fn print_of_an_empty_record_is_the_header() {
    let kernel = fresh_kernel();
    let lines = kernel_print_mappings(&kernel);
    assert_eq!(lines.len(), 1);
    assert!(lines[0].starts_with("Virtual"));
}

#[test]
fn entry_renders_all_hex_digits() {
    let entry = MappingRecordEntry {
        name: "x",
        virt_pages: PageSliceDescriptor::from_addr(Address::new(0x1234_5678_9ABC_0000), 1),
        phys_pages: PageSliceDescriptor::from_addr(Address::new(0x0FED_CBA9_8765_0000), 0x10),
        attribute_fields: normal_rw(),
    };
    assert_eq!(
        entry.render(),
        "0x123456789ABC0000..0x123456789ABCFFFF --> 0x0FEDCBA987650000..0x0FEDCBA98774FFFF | C   RW XN | x"
    );
}

#[test]
fn map_binary_prepares_the_tables_and_maps_the_segments() {
    let mut kernel = fresh_kernel();
    let segments = vec![
        MappingRecordEntry { name: "Kernel code and RO data", virt_pages: virt(8, 2), phys_pages: phys(8, 2), attribute_fields: code_rx() },
        MappingRecordEntry { name: "Kernel data and bss", virt_pages: virt(10, 4), phys_pages: phys(10, 4), attribute_fields: normal_rw() },
    ];
    assert_eq!(kernel_map_binary(&mut kernel, &segments), Ok(Address::new(0x8_0000)));
    assert_eq!(kernel.record.len(), 2);
    assert_eq!(kernel.record.get(0).unwrap().name, "Kernel code and RO data");
    assert_eq!(kernel.record.get(1).unwrap().virt_pages, virt(10, 4));
    assert_eq!(try_virt_to_phys(&kernel, Address::new(8 * PAGE)), Err(TranslationError::MMUDisabled));
    assert!(enable_mmu_and_caching(&mut kernel, Address::new(0x8_0000)).is_ok());
    assert_eq!(try_virt_to_phys(&kernel, Address::new(13 * PAGE + 0xF0)), Ok(Address::new(13 * PAGE + 0xF0)));
    assert!(kernel_map_mmio(&mut kernel, "uart", &window(0x3F20_1000, 4)).is_ok());
}

#[test]
fn map_binary_stops_at_the_first_refused_segment() {
    let mut kernel = fresh_kernel();
    let segments = vec![
        MappingRecordEntry { name: "first", virt_pages: virt(8, 2), phys_pages: phys(8, 2), attribute_fields: code_rx() },
        MappingRecordEntry { name: "second", virt_pages: virt(9, 1), phys_pages: phys(20, 1), attribute_fields: normal_rw() },
        MappingRecordEntry { name: "third", virt_pages: virt(12, 1), phys_pages: phys(12, 1), attribute_fields: normal_rw() },
    ];
    assert_eq!(kernel_map_binary(&mut kernel, &segments), Err("Virtual page is already mapped"));
    assert_eq!(kernel.record.len(), 1);
    assert!(enable_mmu_and_caching(&mut kernel, Address::new(0x8_0000)).is_ok());
    assert_eq!(try_virt_to_phys(&kernel, Address::new(8 * PAGE)), Ok(Address::new(8 * PAGE)));
    assert_eq!(try_virt_to_phys(&kernel, Address::new(12 * PAGE)), Err(TranslationError::Aborted));
}

#[test]
fn map_binary_of_no_segments() {
    let mut kernel = fresh_kernel();
    assert_eq!(kernel_map_binary(&mut kernel, &Vec::new()), Ok(Address::new(0x8_0000)));
    assert_eq!(kernel.record.len(), 0);
    assert_eq!(kernel_map_pages_at(&mut kernel, "after", &virt(0, 1), &phys(0, 1), &normal_rw()), Ok(()));
}
