//! The memory management unit and the kernel's mapping operations.

use crate::descriptors::{
    mmio_attributes, AccessPermissions, AttributeFields, MMIODescriptor, MemAttributes,
    PageSliceDescriptor,
};
use crate::fixed_table::FixedSizeTranslationTable;
use crate::mapping_record::{
    duplicate_entry, first_match, has_match, lemma_has_match_first, record_after_add,
    MappingRecord, MappingRecordEntry,
};
use crate::render::{lines_text, record_text};
use crate::translation_table::{TableView, TranslationTable};
use crate::types::{Address, AddressSpace, Physical, Virtual};
use core::marker::PhantomData;
use vstd::prelude::*;

verus! {

/// Why the translation hardware was not switched on.
#[derive(Clone, Copy, Debug)]
pub enum MMUEnableError {
    /// It is on already.
    AlreadyEnabled,
    /// The architecture refused, for the reason given.
    Other(&'static str),
}

/// Why a virtual address was not translated.
#[derive(Clone, Copy, Debug, PartialEq, Eq, Structural)]
pub enum TranslationError {
    /// The translation hardware is off.
    MMUDisabled,
    /// The walk of the tables met a page that is not mapped.
    Aborted,
}

impl MMUEnableError {
    /// The error in words.
    pub fn to_string(&self) -> (r: String)
        ensures
            r@ == match *self {
                MMUEnableError::AlreadyEnabled => "MMU is already enabled"@,
                MMUEnableError::Other(x) => x@,
            },
    {
        match self {
            MMUEnableError::AlreadyEnabled => "MMU is already enabled".to_owned(),
            MMUEnableError::Other(x) => (*x).to_owned(),
        }
    }
}

/// What a translation of `virt` gives: nothing while the hardware is off,
/// else what a walk of the tables finds.
pub open spec fn translate(enabled: bool, tables: TableView, virt: Address<Virtual>) -> Result<
    Address<Physical>,
    TranslationError,
> {
    if !enabled {
        Err(TranslationError::MMUDisabled)
    } else {
        match tables.walk(virt) {
            Some(phys) => Ok(phys),
            None => Err(TranslationError::Aborted),
        }
    }
}

/// What the translation hardware of an architecture owes its callers.
pub trait MMU: Sized {
    /// Whether the hardware translates.
    spec fn enabled(&self) -> bool;

    /// The hardware after it was asked to translate with the root table at
    /// `base`, and what it answered.
    spec fn enable_outcome(&self, base: Address<Physical>) -> (Self, Result<(), MMUEnableError>);

    /// Hardware that is on refuses with `AlreadyEnabled`, and only such
    /// hardware does; hardware that agrees is on afterwards; hardware that
    /// refuses stays as it is.
    proof fn lemma_enable_outcome(&self, base: Address<Physical>)
        ensures
            self.enabled() <==> self.enable_outcome(base).1 == Err::<(), MMUEnableError>(
                MMUEnableError::AlreadyEnabled,
            ),
            self.enable_outcome(base).1 is Ok ==> self.enable_outcome(base).0.enabled(),
            self.enable_outcome(base).1 is Err ==> self.enable_outcome(base).0 == *self,
    ;

    /// Switches translation and the caches on, with the root table at
    /// `phys_tables_base_addr`. This changes how the processor sees all of
    /// memory.
    fn enable_mmu_and_caching(&mut self, phys_tables_base_addr: Address<Physical>) -> (r: Result<
        (),
        MMUEnableError,
    >)
        ensures
            (*final(self), r) == old(self).enable_outcome(phys_tables_base_addr),
    ;

    /// Whether the hardware translates.
    fn is_enabled(&self) -> (r: bool)
        ensures
            r == self.enabled(),
    ;

    /// Translates the virtual address `virt` by a walk of `tables`.
    fn try_virt_to_phys<T: TranslationTable>(&self, tables: &T, virt: Address<Virtual>) -> (r:
        Result<Address<Physical>, TranslationError>)
        requires
            tables.inv(),
        ensures
            r == translate(self.enabled(), tables@, virt),
    ;
}

/// Translation hardware that does whatever it is asked to do.
#[derive(Clone, Copy, Debug)]
pub struct MemoryManagementUnit {
    /// Whether the hardware translates.
    pub enabled: bool,
    /// The address of the root table, once the hardware translates.
    pub tables_base: usize,
}

impl MemoryManagementUnit {
    /// The hardware as it is at boot: off.
    pub fn new() -> (r: Self)
        ensures
            r == (MemoryManagementUnit { enabled: false, tables_base: 0 }),
            !r.enabled(),
    {
        MemoryManagementUnit { enabled: false, tables_base: 0 }
    }
}

impl MMU for MemoryManagementUnit {
    open spec fn enabled(&self) -> bool {
        self.enabled
    }

    /// This hardware does what it is asked to do: from off it goes on and
    /// keeps the address of the root table.
    open spec fn enable_outcome(&self, base: Address<Physical>) -> (Self, Result<
        (),
        MMUEnableError,
    >) {
        if self.enabled {
            (*self, Err(MMUEnableError::AlreadyEnabled))
        } else {
            (MemoryManagementUnit { enabled: true, tables_base: base.value }, Ok(()))
        }
    }

    proof fn lemma_enable_outcome(&self, base: Address<Physical>) {
    }

    fn enable_mmu_and_caching(&mut self, phys_tables_base_addr: Address<Physical>) -> (r: Result<
        (),
        MMUEnableError,
    >) {
        if self.enabled {
            return Err(MMUEnableError::AlreadyEnabled);
        }
        self.tables_base = phys_tables_base_addr.value;
        self.enabled = true;
        Ok(())
    }

    fn is_enabled(&self) -> (r: bool) {
        self.enabled
    }

    fn try_virt_to_phys<T: TranslationTable>(&self, tables: &T, virt: Address<Virtual>) -> (r:
        Result<Address<Physical>, TranslationError>) {
        if !self.enabled {
            return Err(TranslationError::MMUDisabled);
        }
        match tables.try_walk(virt) {
            Some(phys) => Ok(phys),
            None => Err(TranslationError::Aborted),
        }
    }
}

/// Intended to be implemented for [`AddressSpace`].
pub trait AssociatedTranslationTable {
    /// A translation table whose address range starts at the bottom of the
    /// address space.
    type TableStartFromBottom;
}

impl<const AS_SIZE: usize> AssociatedTranslationTable for AddressSpace<AS_SIZE> {
    type TableStartFromBottom = FixedSizeTranslationTable;
}

/// The kernel's address space: its translation tables, the translation
/// hardware and the record of the mappings made. There is one of it, and
/// whoever holds it exclusively may change it.
pub struct KernelAddressSpace<T: TranslationTable, M: MMU> {
    /// The translation tables.
    pub tables: T,
    /// The translation hardware.
    pub mmu: M,
    /// The record of the mappings made.
    pub record: MappingRecord,
}

/// The state of the kernel's address space, as its callers see it.
pub struct KernelView {
    /// The state of the translation tables.
    pub tables: TableView,
    /// The recorded mappings, oldest first.
    pub record: Seq<MappingRecordEntry>,
    /// Whether the hardware translates.
    pub mmu_enabled: bool,
}

/// The address `offset` bytes after `start`.
pub open spec fn addr_plus(start: Address<Virtual>, offset: int) -> Address<Virtual> {
    Address { value: (start.value + offset) as usize, kind: PhantomData }
}

impl KernelView {
    /// The state after `entry` was handed to the record.
    pub open spec fn after_record(self, entry: MappingRecordEntry) -> KernelView {
        KernelView { record: record_after_add(self.record, entry), ..self }
    }

    /// The state after the tables were asked to map `virt` to `phys` for
    /// `name`, and the answer. A mapping that the tables made is recorded.
    pub open spec fn after_map_unchecked(
        self,
        name: &'static str,
        virt: PageSliceDescriptor<Virtual>,
        phys: PageSliceDescriptor<Physical>,
        attr: AttributeFields,
    ) -> (KernelView, Result<(), &'static str>) {
        match self.tables.map_pages_error(virt, phys) {
            Some(e) => (self, Err(e)),
            None => (
                KernelView { tables: self.tables.after_map(virt, phys, attr), ..self }.after_record(
                    MappingRecordEntry {
                        name,
                        virt_pages: virt,
                        phys_pages: phys,
                        attribute_fields: attr,
                    },
                ),
                Ok(()),
            ),
        }
    }

    /// The state after the kernel was asked to map `virt` to `phys` for
    /// `name`, and the answer. A run that shares a page with the region
    /// reserved for device mappings is refused, and nothing changes.
    pub open spec fn after_map_pages_at(
        self,
        name: &'static str,
        virt: PageSliceDescriptor<Virtual>,
        phys: PageSliceDescriptor<Physical>,
        attr: AttributeFields,
    ) -> (KernelView, Result<(), &'static str>) {
        if self.tables.is_mmio(virt) {
            (self, Err("Attempt to manually map into MMIO region"))
        } else {
            self.after_map_unchecked(name, virt, phys, attr)
        }
    }

    /// The state after the kernel was asked to map the register window
    /// `desc` for `name`, and the answer.
    ///
    /// Where the record holds a mapping of exactly the pages of the window,
    /// the oldest such mapping is used again and `name` is recorded as a
    /// further owner of it. Otherwise fresh pages of the reserved region are
    /// taken and mapped as device memory. The address returned is the place
    /// of the window's first byte in the mapped pages.
    pub open spec fn after_map_mmio(self, name: &'static str, desc: MMIODescriptor) -> (
        KernelView,
        Result<Address<Virtual>, &'static str>,
    ) {
        let phys = desc.page_slice();
        if has_match(self.record, phys) {
            let found = self.record[first_match(self.record, phys)];
            (
                self.after_record(duplicate_entry(found, name)),
                Ok(addr_plus(found.virt_pages.start, desc.page_offset())),
            )
        } else {
            match self.tables.next_mmio_error(phys.num_pages) {
                Some(e) => (self, Err(e)),
                None => {
                    let virt = self.tables.next_mmio_slice(phys.num_pages);
                    let taken = KernelView {
                        tables: self.tables.after_next_mmio(phys.num_pages),
                        ..self
                    };
                    match taken.after_map_unchecked(name, virt, phys, mmio_attributes()) {
                        (after, Ok(_)) => (after, Ok(addr_plus(virt.start, desc.page_offset()))),
                        (after, Err(e)) => (after, Err(e)),
                    }
                },
            }
        }
    }

    /// The state after the segments `segments[from..]` of the kernel's image
    /// were mapped in turn, and the answer. The first segment that is
    /// refused ends the work; those before it stay mapped.
    pub open spec fn after_map_segments(self, segments: Seq<MappingRecordEntry>, from: int) -> (
        KernelView,
        Result<(), &'static str>,
    )
        decreases segments.len() - from,
    {
        if from < 0 || from >= segments.len() {
            (self, Ok(()))
        } else {
            let s = segments[from];
            match self.after_map_pages_at(s.name, s.virt_pages, s.phys_pages, s.attribute_fields) {
                (after, Ok(_)) => after.after_map_segments(segments, from + 1),
                (after, Err(e)) => (after, Err(e)),
            }
        }
    }

    /// The state after the tables were prepared and the segments of the
    /// kernel's image mapped, and the answer: the address of the root table.
    pub open spec fn after_map_binary(self, segments: Seq<MappingRecordEntry>) -> (
        KernelView,
        Result<Address<Physical>, &'static str>,
    ) {
        let prepared = KernelView { tables: self.tables.after_init(), ..self };
        match prepared.after_map_segments(segments, 0) {
            (after, Ok(_)) => (
                after,
                Ok(Address { value: self.tables.phys_base, kind: PhantomData }),
            ),
            (after, Err(e)) => (after, Err(e)),
        }
    }
}

impl<T: TranslationTable, M: MMU> KernelAddressSpace<T, M> {
    /// The state of the address space, as its callers see it.
    pub open spec fn view(&self) -> KernelView {
        KernelView { tables: self.tables@, record: self.record@, mmu_enabled: self.mmu.enabled() }
    }

    /// The tables and the record are in order.
    pub open spec fn inv(&self) -> bool {
        self.tables.inv() && self.record.wf()
    }

    /// The address space over `tables` and `mmu`, with nothing recorded.
    pub fn new(tables: T, mmu: M) -> (r: Self)
        requires
            tables.inv(),
        ensures
            r.inv(),
            r.tables == tables,
            r.mmu == mmu,
            r.record@ == Seq::<MappingRecordEntry>::empty(),
    {
        KernelAddressSpace { tables, mmu, record: MappingRecord::new() }
    }
}

/// Whether every segment names runs of pages.
pub open spec fn segments_wf(segments: Seq<MappingRecordEntry>) -> bool {
    forall|i: int|
        0 <= i < segments.len() ==> (#[trigger] segments[i]).virt_pages.wf()
            && segments[i].phys_pages.wf()
}

/// Maps pages in the kernel's translation tables and records the mapping.
/// The input goes to the tables as it is; no alias is looked for.
fn kernel_map_pages_at_unchecked<T: TranslationTable, M: MMU>(
    kernel: &mut KernelAddressSpace<T, M>,
    name: &'static str,
    virt_pages: &PageSliceDescriptor<Virtual>,
    phys_pages: &PageSliceDescriptor<Physical>,
    attr: &AttributeFields,
) -> (r: Result<(), &'static str>)
    requires
        old(kernel).inv(),
        virt_pages.wf(),
        phys_pages.wf(),
    ensures
        final(kernel).inv(),
        final(kernel).mmu == old(kernel).mmu,
        (final(kernel)@, r) == old(kernel)@.after_map_unchecked(
            name,
            *virt_pages,
            *phys_pages,
            *attr,
        ),
{
    match kernel.tables.map_pages_at(virt_pages, phys_pages, attr) {
        Err(e) => Err(e),
        Ok(_) => {
            let _ = kernel_add_mapping_record(kernel, name, virt_pages, phys_pages, attr);
            Ok(())
        },
    }
}

/// Adds an entry to the record of mappings. A full record loses the entry;
/// the warning that says so is returned, and nothing else follows from it.
pub fn kernel_add_mapping_record<T: TranslationTable, M: MMU>(
    kernel: &mut KernelAddressSpace<T, M>,
    name: &'static str,
    virt_pages: &PageSliceDescriptor<Virtual>,
    phys_pages: &PageSliceDescriptor<Physical>,
    attr: &AttributeFields,
) -> (r: Option<&'static str>)
    requires
        old(kernel).inv(),
        virt_pages.wf(),
        phys_pages.wf(),
    ensures
        final(kernel).inv(),
        final(kernel).mmu == old(kernel).mmu,
        final(kernel).tables == old(kernel).tables,
        final(kernel)@ == old(kernel)@.after_record(
            (MappingRecordEntry {
                name,
                virt_pages: *virt_pages,
                phys_pages: *phys_pages,
                attribute_fields: *attr,
            }),
        ),
        r == (if old(kernel)@.record.len() < crate::mapping_record::MAPPING_RECORD_CAPACITY {
            None::<&'static str>
        } else {
            Some("Storage for mapping info exhausted")
        }),
{
    match kernel.record.add(name, virt_pages, phys_pages, attr) {
        Err(x) => Some(x),
        Ok(_) => None,
    }
}

/// Raw mapping of virtual to physical pages in the kernel's translation
/// tables. A run that shares a page with the region reserved for device
/// mappings is refused before anything changes.
///
/// No alias is looked for: the caller answers for the pages it names.
pub fn kernel_map_pages_at<T: TranslationTable, M: MMU>(
    kernel: &mut KernelAddressSpace<T, M>,
    name: &'static str,
    virt_pages: &PageSliceDescriptor<Virtual>,
    phys_pages: &PageSliceDescriptor<Physical>,
    attr: &AttributeFields,
) -> (r: Result<(), &'static str>)
    requires
        old(kernel).inv(),
        virt_pages.wf(),
        phys_pages.wf(),
    ensures
        final(kernel).inv(),
        final(kernel).mmu == old(kernel).mmu,
        (final(kernel)@, r) == old(kernel)@.after_map_pages_at(
            name,
            *virt_pages,
            *phys_pages,
            *attr,
        ),
        old(kernel)@.tables.is_mmio(*virt_pages) ==> r == Err::<(), &'static str>(
            "Attempt to manually map into MMIO region",
        ) && final(kernel)@ == old(kernel)@,
{
    let is_mmio = kernel.tables.is_virt_page_slice_mmio(virt_pages);
    if is_mmio {
        return Err("Attempt to manually map into MMIO region");
    }
    kernel_map_pages_at_unchecked(kernel, name, virt_pages, phys_pages, attr)
}

/// Maps the register window of a device and returns the virtual address of
/// its first byte. This is how a device driver comes by its addresses.
pub fn kernel_map_mmio<T: TranslationTable, M: MMU>(
    kernel: &mut KernelAddressSpace<T, M>,
    name: &'static str,
    mmio_descriptor: &MMIODescriptor,
) -> (r: Result<Address<Virtual>, &'static str>)
    requires
        old(kernel).inv(),
        mmio_descriptor.wf(),
    ensures
        final(kernel).inv(),
        final(kernel).mmu == old(kernel).mmu,
        (final(kernel)@, r) == old(kernel)@.after_map_mmio(name, *mmio_descriptor),
{
    let phys_pages = mmio_descriptor.to_page_slice();
    let offset_into_start_page: usize = mmio_descriptor.start_addr().offset_into_page();
    let found = kernel.record.find_and_insert_mmio_duplicate(mmio_descriptor, name);
    let virt_addr = match found {
        Some(addr) => {
            proof {
                lemma_has_match_first(old(kernel).record@, phys_pages);
                let i = first_match(old(kernel).record@, phys_pages);
                assert(old(kernel).record@[i].virt_pages.wf());
            }
            addr
        },
        None => {
            let virt_pages = match kernel.tables.next_mmio_virt_page_slice(phys_pages.num_pages()) {
                Ok(v) => v,
                Err(e) => {
                    return Err(e);
                },
            };
            match kernel_map_pages_at_unchecked(
                kernel,
                name,
                &virt_pages,
                &phys_pages,
                &AttributeFields {
                    mem_attributes: MemAttributes::Device,
                    acc_perms: AccessPermissions::ReadWrite,
                    execute_never: true,
                },
            ) {
                Ok(_) => {},
                Err(e) => {
                    return Err(e);
                },
            }
            virt_pages.start_addr()
        },
    };
    Ok(Address { value: virt_addr.value + offset_into_start_page, kind: PhantomData })
}

/// Prepares the tables and maps the segments of the kernel's image, each
/// through [`kernel_map_pages_at`]. Returns the address of the root table.
pub fn kernel_map_binary<T: TranslationTable, M: MMU>(
    kernel: &mut KernelAddressSpace<T, M>,
    segments: &Vec<MappingRecordEntry>,
) -> (r: Result<Address<Physical>, &'static str>)
    requires
        old(kernel).inv(),
        segments_wf(segments@),
    ensures
        final(kernel).inv(),
        final(kernel).mmu == old(kernel).mmu,
        (final(kernel)@, r) == old(kernel)@.after_map_binary(segments@),
{
    kernel.tables.init();
    let phys_kernel_tables_base_addr = kernel.tables.phys_base_address();
    let ghost prepared = kernel@;
    let mut i: usize = 0;
    while i < segments.len()
        invariant
            i <= segments@.len(),
            kernel.inv(),
            kernel.mmu == old(kernel).mmu,
            segments_wf(segments@),
            prepared == (KernelView {
                tables: old(kernel)@.tables.after_init(),
                ..old(kernel)@
            }),
            kernel@.after_map_segments(segments@, i as int) == prepared.after_map_segments(
                segments@,
                0,
            ),
        decreases segments@.len() - i,
    {
        let s = &segments[i];
        let ghost before = kernel@;
        let mapped = kernel_map_pages_at(
            kernel,
            s.name,
            &s.virt_pages,
            &s.phys_pages,
            &s.attribute_fields,
        );
        assert(before.after_map_segments(segments@, i as int) == (match mapped {
            Ok(_) => kernel@.after_map_segments(segments@, i + 1),
            Err(e) => (kernel@, Err::<(), &'static str>(e)),
        }));
        match mapped {
            Ok(_) => {},
            Err(e) => {
                return Err(e);
            },
        }
        i = i + 1;
    }
    assert(kernel@.after_map_segments(segments@, i as int) == (kernel@, Ok::<(), &'static str>(())));
    Ok(Address { value: phys_kernel_tables_base_addr.value, kind: PhantomData })
}

/// Translates a virtual address by a walk of the kernel's tables.
pub fn try_virt_to_phys<T: TranslationTable, M: MMU>(
    kernel: &KernelAddressSpace<T, M>,
    virt: Address<Virtual>,
) -> (r: Result<Address<Physical>, TranslationError>)
    requires
        kernel.inv(),
    ensures
        r == translate(kernel@.mmu_enabled, kernel@.tables, virt),
{
    kernel.mmu.try_virt_to_phys(&kernel.tables, virt)
}

/// Switches translation and the caches on. This works once: hardware that
/// is on refuses with [`MMUEnableError::AlreadyEnabled`] and stays as it is.
pub fn enable_mmu_and_caching<T: TranslationTable, M: MMU>(
    kernel: &mut KernelAddressSpace<T, M>,
    phys_tables_base_addr: Address<Physical>,
) -> (r: Result<(), MMUEnableError>)
    requires
        old(kernel).inv(),
    ensures
        final(kernel).inv(),
        final(kernel).tables == old(kernel).tables,
        final(kernel).record == old(kernel).record,
        (final(kernel).mmu, r) == old(kernel).mmu.enable_outcome(phys_tables_base_addr),
        old(kernel)@.mmu_enabled <==> r == Err::<(), MMUEnableError>(MMUEnableError::AlreadyEnabled),
        r is Ok ==> final(kernel)@.mmu_enabled,
        r is Err ==> *final(kernel) == *old(kernel),
{
    proof {
        kernel.mmu.lemma_enable_outcome(phys_tables_base_addr);
    }
    kernel.mmu.enable_mmu_and_caching(phys_tables_base_addr)
}

/// The recorded mappings as lines of text, ready to be printed: a header,
/// then one line for each mapping in the order in which they were made.
pub fn kernel_print_mappings<T: TranslationTable, M: MMU>(kernel: &KernelAddressSpace<T, M>) -> (r:
    Vec<String>)
    requires
        kernel.inv(),
    ensures
        lines_text(r@) == record_text(kernel@.record),
{
    kernel.record.print()
}

} // verus!
