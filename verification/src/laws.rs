//! What holds of the mapping operations taken together.

use crate::descriptors::{AttributeFields, MMIODescriptor, PageSliceDescriptor};
use crate::mapping_record::{
    first_match, has_match, is_first_match, lemma_first_match_unique, lemma_has_match_first,
    MappingRecordEntry, MAPPING_RECORD_CAPACITY,
};
use crate::mmu::{
    addr_plus, translate, KernelView, MMUEnableError, MemoryManagementUnit, TranslationError, MMU,
};
use crate::render::{record_text, row_text};
use crate::translation_table::TableView;
use crate::types::{
    is_power_of_two, lemma_pow2_injective, log2_of, Address, Physical, Virtual,
    KERNEL_GRANULE_SIZE,
};
use vstd::arithmetic::power2::pow2;
use core::marker::PhantomData;
use vstd::prelude::*;

verus! {

/// Every power of two is a granule size, and the shift of the granule of
/// `2^k` bytes is `k`.
pub proof fn lemma_granule_shift_is_exponent(k: nat)
    ensures
        is_power_of_two(pow2(k) as int),
        log2_of(pow2(k) as int) == k,
{
    let n = pow2(k) as int;
    assert(is_power_of_two(n));
    lemma_pow2_injective(log2_of(n), k);
}

/// Once a run of virtual pages is mapped to a run of physical pages, every
/// address in the virtual run translates to the address at the same distance
/// from the start of the physical run, so to the same place in its page.
pub proof fn lemma_map_then_translate(
    tables: TableView,
    virt: PageSliceDescriptor<Virtual>,
    phys: PageSliceDescriptor<Physical>,
    attr: AttributeFields,
    addr: Address<Virtual>,
)
    requires
        tables.wf(),
        virt.wf(),
        phys.wf(),
        tables.map_pages_error(virt, phys) is None,
        virt.contains_addr(addr.value as int),
    ensures
        translate(true, tables.after_map(virt, phys, attr), addr) == Ok::<
            Address<Physical>,
            TranslationError,
        >(
            Address {
                value: (phys.start.value + (addr.value - virt.start.value)) as usize,
                kind: PhantomData,
            },
        ),
        phys.contains_addr(phys.start.value + (addr.value - virt.start.value)),
        (phys.start.value + (addr.value - virt.start.value)) % (KERNEL_GRANULE_SIZE as int)
            == addr.value as int % (KERNEL_GRANULE_SIZE as int),
{
    let page = addr.value as int / KERNEL_GRANULE_SIZE as int;
    assert(virt.contains_page(page));
}

/// A mapping leaves the translation of every address outside its run as it
/// was.
pub proof fn lemma_map_keeps_other_translations(
    tables: TableView,
    virt: PageSliceDescriptor<Virtual>,
    phys: PageSliceDescriptor<Physical>,
    attr: AttributeFields,
    addr: Address<Virtual>,
    enabled: bool,
)
    requires
        virt.wf(),
        !virt.contains_addr(addr.value as int),
    ensures
        translate(enabled, tables.after_map(virt, phys, attr), addr) == translate(
            enabled,
            tables,
            addr,
        ),
{
    let page = addr.value as int / KERNEL_GRANULE_SIZE as int;
    assert(!virt.contains_page(page));
}

/// A request to map pages of the region reserved for device mappings by
/// hand is refused, and neither the tables nor the record change.
pub proof fn lemma_manual_mmio_mapping_refused(
    kernel: KernelView,
    name: &'static str,
    virt: PageSliceDescriptor<Virtual>,
    phys: PageSliceDescriptor<Physical>,
    attr: AttributeFields,
)
    requires
        kernel.tables.is_mmio(virt),
    ensures
        kernel.after_map_pages_at(name, virt, phys, attr) == (
            kernel,
            Err::<(), &'static str>("Attempt to manually map into MMIO region"),
        ),
{
}

/// Two owners that ask for the same register window get the same address,
/// and the record then holds one entry for each of them, with the same
/// virtual and the same physical pages. This needs room for both entries in
/// the record.
pub proof fn lemma_mmio_same_window_same_address(
    kernel: KernelView,
    first_name: &'static str,
    second_name: &'static str,
    desc: MMIODescriptor,
)
    requires
        kernel.record.len() + 2 <= MAPPING_RECORD_CAPACITY,
        kernel.after_map_mmio(first_name, desc).1 is Ok,
    ensures
        ({
            let (k1, r1) = kernel.after_map_mmio(first_name, desc);
            let (k2, r2) = k1.after_map_mmio(second_name, desc);
            let n = kernel.record.len() as int;
            &&& r2 == r1
            &&& k2.tables == k1.tables
            &&& k2.record.len() == n + 2
            &&& k2.record.subrange(0, n) == kernel.record
            &&& k2.record[n].name == first_name
            &&& k2.record[n + 1].name == second_name
            &&& k2.record[n].phys_pages == desc.page_slice()
            &&& k2.record[n + 1].phys_pages == desc.page_slice()
            &&& k2.record[n].virt_pages == k2.record[n + 1].virt_pages
            &&& r1 == Ok::<Address<Virtual>, &'static str>(
                addr_plus(k2.record[n].virt_pages.start, desc.page_offset()),
            )
        }),
{
    let phys = desc.page_slice();
    let (k1, r1) = kernel.after_map_mmio(first_name, desc);
    let n = kernel.record.len() as int;
    if has_match(kernel.record, phys) {
        lemma_has_match_first(kernel.record, phys);
        let i = first_match(kernel.record, phys);
        assert(k1.record[i] == kernel.record[i]);
        assert forall|j: int| 0 <= j < i implies k1.record[j].phys_pages != phys by {
            assert(k1.record[j] == kernel.record[j]);
        }
        assert(is_first_match(k1.record, phys, i));
        lemma_first_match_unique(k1.record, phys, i);
    } else {
        assert(k1.record.len() == n + 1);
        assert forall|j: int| 0 <= j < n implies k1.record[j].phys_pages != phys by {
            assert(k1.record[j] == kernel.record[j]);
        }
        assert(is_first_match(k1.record, phys, n));
        lemma_first_match_unique(k1.record, phys, n);
    }
    let (k2, r2) = k1.after_map_mmio(second_name, desc);
    assert(k2.record.subrange(0, n) =~= kernel.record);
}

/// Two register windows whose pages are not exactly the same pages, neither
/// of them mapped before, get pages of their own: the pages taken for the
/// second follow those taken for the first, and the two addresses differ.
/// That the windows overlap changes nothing.
pub proof fn lemma_mmio_different_windows_different_pages(
    kernel: KernelView,
    first_name: &'static str,
    second_name: &'static str,
    first: MMIODescriptor,
    second: MMIODescriptor,
)
    requires
        kernel.tables.wf(),
        first.wf(),
        second.wf(),
        first.page_slice() != second.page_slice(),
        !has_match(kernel.record, first.page_slice()),
        !has_match(kernel.record, second.page_slice()),
        kernel.after_map_mmio(first_name, first).1 is Ok,
        kernel.after_map_mmio(first_name, first).0.after_map_mmio(second_name, second).1 is Ok,
    ensures
        ({
            let (k1, r1) = kernel.after_map_mmio(first_name, first);
            let (k2, r2) = k1.after_map_mmio(second_name, second);
            let taken_first = kernel.tables.next_mmio_slice(first.page_slice().num_pages);
            let taken_second = k1.tables.next_mmio_slice(second.page_slice().num_pages);
            &&& r1 == Ok::<Address<Virtual>, &'static str>(
                addr_plus(taken_first.start, first.page_offset()),
            )
            &&& r2 == Ok::<Address<Virtual>, &'static str>(
                addr_plus(taken_second.start, second.page_offset()),
            )
            &&& taken_first.start.value + taken_first.num_pages * KERNEL_GRANULE_SIZE
                == taken_second.start.value
            &&& r1->Ok_0.value < taken_second.start.value <= r2->Ok_0.value
        }),
{
    let (k1, r1) = kernel.after_map_mmio(first_name, first);
    let first_pages = first.page_slice();
    let second_pages = second.page_slice();
    assert(!has_match(k1.record, second_pages)) by {
        if has_match(k1.record, second_pages) {
            let i = choose|i: int| 0 <= i < k1.record.len() && #[trigger] k1.record[i].phys_pages == second_pages;
            if i < kernel.record.len() {
                assert(kernel.record[i].phys_pages == second_pages);
            }
        }
    }
    assert(first_pages.num_pages > 0) by {
        assert(first.wf());
    }
}

/// The translation hardware is switched on once: after a request that was
/// granted, every later request is refused with `AlreadyEnabled` and changes
/// nothing.
pub proof fn lemma_enable_works_once<M: MMU>(
    mmu: M,
    first_base: Address<Physical>,
    second_base: Address<Physical>,
)
    requires
        mmu.enable_outcome(first_base).1 is Ok,
    ensures
        !mmu.enabled(),
        ({
            let on = mmu.enable_outcome(first_base).0;
            &&& on.enabled()
            &&& on.enable_outcome(second_base) == (
                on,
                Err::<(), MMUEnableError>(MMUEnableError::AlreadyEnabled),
            )
        }),
{
    mmu.lemma_enable_outcome(first_base);
    mmu.enable_outcome(first_base).0.lemma_enable_outcome(second_base);
}

/// Hardware that does whatever it is asked to do grants the first request.
pub proof fn lemma_first_enable_is_granted(mmu: MemoryManagementUnit, base: Address<Physical>)
    requires
        !mmu.enabled,
    ensures
        mmu.enable_outcome(base) == (
            MemoryManagementUnit { enabled: true, tables_base: base.value },
            Ok::<(), MMUEnableError>(()),
        ),
{
}

/// While the hardware is off no address is translated; once it is on, an
/// address whose page is not mapped aborts the walk.
pub proof fn lemma_translation_failures(tables: TableView, virt: Address<Virtual>)
    ensures
        translate(false, tables, virt) == Err::<Address<Physical>, TranslationError>(
            TranslationError::MMUDisabled,
        ),
        !tables.entries.contains_key(virt.value as int / KERNEL_GRANULE_SIZE as int) ==> translate(
            true,
            tables,
            virt,
        ) == Err::<Address<Physical>, TranslationError>(TranslationError::Aborted),
{
}

/// When the reserved region has too few pages left for a register window
/// that was not mapped before, the request is refused and nothing changes;
/// a window that was mapped before is still served.
pub proof fn lemma_mmio_exhaustion(kernel: KernelView, name: &'static str, desc: MMIODescriptor)
    requires
        kernel.tables.initialized,
        desc.wf(),
    ensures
        !has_match(kernel.record, desc.page_slice()) && kernel.tables.mmio_next
            + desc.page_slice().num_pages > kernel.tables.mmio_end ==> kernel.after_map_mmio(
            name,
            desc,
        ) == (kernel, Err::<Address<Virtual>, &'static str>("Not enough MMIO space left")),
        has_match(kernel.record, desc.page_slice()) ==> kernel.after_map_mmio(name, desc).1 is Ok
            && kernel.after_map_mmio(name, desc).0.tables == kernel.tables,
{
}

/// Where the reserved pages that were not handed out yet are unmapped, a
/// device mapping leaves them so, and one that is refused changes nothing.
pub proof fn lemma_mmio_mapping_keeps_reserve_free(
    kernel: KernelView,
    name: &'static str,
    desc: MMIODescriptor,
)
    requires
        kernel.tables.wf(),
        desc.wf(),
        forall|p: int|
            kernel.tables.mmio_next <= p < kernel.tables.mmio_end
                ==> !#[trigger] kernel.tables.entries.contains_key(p),
    ensures
        ({
            let (after, r) = kernel.after_map_mmio(name, desc);
            &&& forall|p: int|
                after.tables.mmio_next <= p < after.tables.mmio_end
                    ==> !#[trigger] after.tables.entries.contains_key(p)
            &&& r is Err ==> after == kernel
        }),
{
    let phys = desc.page_slice();
    if !has_match(kernel.record, phys) && kernel.tables.next_mmio_error(phys.num_pages) is None {
        let virt = kernel.tables.next_mmio_slice(phys.num_pages);
        let taken = kernel.tables.after_next_mmio(phys.num_pages);
        assert(virt.first_page() == kernel.tables.mmio_next);
        assert(!taken.is_occupied(virt));
        assert(virt.end_page() <= taken.num_pages);
    }
}

/// The text of the record keeps the order in which the mappings were made:
/// a further mapping adds its line at the end and changes no other line.
pub proof fn lemma_print_keeps_insertion_order(
    entries: Seq<MappingRecordEntry>,
    entry: MappingRecordEntry,
)
    ensures
        record_text(entries.push(entry)) == record_text(entries).push(row_text(entry)),
        record_text(entries).len() == entries.len() + 1,
        forall|i: int|
            0 <= i < entries.len() ==> #[trigger] record_text(entries)[i + 1] == row_text(
                entries[i],
            ),
{
    assert(record_text(entries.push(entry)) =~= record_text(entries).push(row_text(entry)));
}

} // verus!
