//! Translation tables of a fixed size, with one slot for each virtual page.

use crate::descriptors::{AttributeFields, PageSliceDescriptor};
use crate::translation_table::{PageMapping, TableView, TranslationTable};
use crate::types::{Address, Physical, Virtual, KERNEL_GRANULE_SIZE};
use core::marker::PhantomData;
use vstd::prelude::*;

verus! {

/// The descriptor of one mapped page.
#[derive(Clone, Copy, Debug)]
pub struct PageDescriptor {
    /// The address of the physical page.
    pub output_addr: usize,
    /// The attributes of the mapping.
    pub attr: AttributeFields,
}

/// Translation tables for the virtual pages `0` to `num_pages - 1`. The last
/// pages are reserved for device mappings.
pub struct FixedSizeTranslationTable {
    pages: Vec<Option<PageDescriptor>>,
    mmio_start: usize,
    cur_mmio: usize,
    initialized: bool,
    phys_base: Address<Physical>,
}

/// What a slot says of its page.
pub open spec fn slot_mapping(slot: Option<PageDescriptor>) -> PageMapping {
    PageMapping {
        phys_page: slot->Some_0.output_addr as int / KERNEL_GRANULE_SIZE as int,
        attr: slot->Some_0.attr,
    }
}

/// Whether a slot holds what a mapping may hold: nothing, or the start of a
/// physical page of the machine.
pub open spec fn slot_ok(slot: Option<PageDescriptor>) -> bool {
    slot is Some ==> slot->Some_0.output_addr as int % KERNEL_GRANULE_SIZE as int == 0
        && slot->Some_0.output_addr + KERNEL_GRANULE_SIZE <= usize::MAX
}

/// Whether tables of `num_pages` pages, the last `mmio_pages` of them
/// reserved, can be had.
pub open spec fn geometry_ok(num_pages: usize, mmio_pages: usize) -> bool {
    mmio_pages <= num_pages && num_pages * KERNEL_GRANULE_SIZE <= usize::MAX
}

impl FixedSizeTranslationTable {
    /// Tables of `num_pages` virtual pages with nothing mapped, the last
    /// `mmio_pages` of them reserved for device mappings, and the root table
    /// at `phys_base`. Nothing where the pages do not fit the address range
    /// or the reserved pages are more than all.
    pub fn new(num_pages: usize, mmio_pages: usize, phys_base: Address<Physical>) -> (r: Option<
        Self,
    >)
        ensures
            r is Some <==> geometry_ok(num_pages, mmio_pages),
            r is Some ==> r->Some_0.inv() && r->Some_0@ == (TableView {
                initialized: false,
                entries: Map::<int, PageMapping>::empty(),
                num_pages: num_pages as int,
                mmio_start: num_pages - mmio_pages,
                mmio_end: num_pages as int,
                mmio_next: num_pages - mmio_pages,
                phys_base: phys_base.value,
            }),
    {
        if mmio_pages > num_pages || num_pages > usize::MAX / KERNEL_GRANULE_SIZE {
            return None;
        }
        let mut pages: Vec<Option<PageDescriptor>> = Vec::new();
        let mut i: usize = 0;
        while i < num_pages
            invariant
                i <= num_pages,
                pages@.len() == i,
                forall|j: int| 0 <= j < i ==> pages@[j] is None,
            decreases num_pages - i,
        {
            pages.push(None);
            i = i + 1;
        }
        let table = FixedSizeTranslationTable {
            pages,
            mmio_start: num_pages - mmio_pages,
            cur_mmio: num_pages - mmio_pages,
            initialized: false,
            phys_base,
        };
        assert(table@.entries =~= Map::<int, PageMapping>::empty());
        Some(table)
    }
}

impl TranslationTable for FixedSizeTranslationTable {
    closed spec fn view(&self) -> TableView {
        TableView {
            initialized: self.initialized,
            entries: Map::new(
                |p: int| 0 <= p < self.pages@.len() && self.pages@[p] is Some,
                |p: int| slot_mapping(self.pages@[p]),
            ),
            num_pages: self.pages@.len() as int,
            mmio_start: self.mmio_start as int,
            mmio_end: self.pages@.len() as int,
            mmio_next: self.cur_mmio as int,
            phys_base: self.phys_base.value,
        }
    }

    closed spec fn inv(&self) -> bool {
        &&& self.mmio_start <= self.cur_mmio <= self.pages@.len()
        &&& self.pages@.len() * KERNEL_GRANULE_SIZE <= usize::MAX
        &&& forall|p: int| 0 <= p < self.pages@.len() ==> slot_ok(#[trigger] self.pages@[p])
    }

    proof fn lemma_inv_implies_wf(&self) {
        assert forall|p: int| #[trigger] self@.entries.contains_key(p) implies 0 <= p
            < self@.num_pages && 0 <= self@.entries[p].phys_page && (self@.entries[p].phys_page
            + 1) * KERNEL_GRANULE_SIZE <= usize::MAX by {
            assert(slot_ok(self.pages@[p]));
        }
    }

    fn init(&mut self) {
        if !self.initialized {
            self.cur_mmio = self.mmio_start;
            self.initialized = true;
        }
    }

    fn map_pages_at(
        &mut self,
        virt_pages: &PageSliceDescriptor<Virtual>,
        phys_pages: &PageSliceDescriptor<Physical>,
        attr: &AttributeFields,
    ) -> (r: Result<(), &'static str>) {
        if !self.initialized {
            return Err("Translation tables are not initialized");
        }
        if virt_pages.num_pages != phys_pages.num_pages {
            return Err("Tried to map page slices with unequal sizes");
        }
        let count: usize = virt_pages.num_pages;
        let first: usize = virt_pages.start.value / KERNEL_GRANULE_SIZE;
        if first >= self.pages.len() || count > self.pages.len() - first {
            return Err("Tried to map outside of virtual address space");
        }
        let mut i: usize = 0;
        while i < count
            invariant
                i <= count,
                first + count <= self.pages@.len(),
                first == virt_pages.first_page(),
                count == virt_pages.num_pages,
                count == phys_pages.num_pages,
                *self == *old(self),
                self.inv(),
                self.initialized,
                forall|p: int| first <= p < first + i ==> self.pages@[p] is None,
            decreases count - i,
        {
            if self.pages[first + i].is_some() {
                proof {
                    let p = (first + i) as int;
                    assert(virt_pages.contains_page(p) && self@.entries.contains_key(p));
                }
                return Err("Virtual page is already mapped");
            }
            i = i + 1;
        }
        assert(!self@.is_occupied(*virt_pages));
        let ghost before = *self;
        let phys_start: usize = phys_pages.start.value;
        let mut i: usize = 0;
        while i < count
            invariant
                i <= count,
                first + count <= self.pages@.len(),
                self.pages@.len() == before.pages@.len(),
                self.mmio_start == before.mmio_start,
                self.cur_mmio == before.cur_mmio,
                self.initialized == before.initialized,
                self.phys_base == before.phys_base,
                before.inv(),
                phys_start == phys_pages.start.value,
                phys_pages.wf(),
                count == phys_pages.num_pages,
                forall|p: int|
                    first <= p < first + i ==> self.pages@[p] == Some(
                        PageDescriptor {
                            output_addr: (phys_start + (p - first) * KERNEL_GRANULE_SIZE) as usize,
                            attr: *attr,
                        },
                    ),
                forall|p: int|
                    0 <= p < self.pages@.len() && !(first <= p < first + i) ==> self.pages@[p]
                        == before.pages@[p],
            decreases count - i,
        {
            let output_addr: usize = phys_start + i * KERNEL_GRANULE_SIZE;
            self.pages.set(first + i, Some(PageDescriptor { output_addr, attr: *attr }));
            i = i + 1;
        }
        proof {
            assert forall|p: int| 0 <= p < self.pages@.len() implies slot_ok(
                #[trigger] self.pages@[p],
            ) by {
                if first <= p < first + count {
                } else {
                    assert(slot_ok(before.pages@[p]));
                }
            }
            let want = before@.after_map(*virt_pages, *phys_pages, *attr);
            assert forall|p: int| self@.entries.contains_key(p) implies #[trigger] self@.entries[p]
                == want.entries[p] by {
                if first <= p < first + count {
                    assert(virt_pages.contains_page(p));
                }
            }
            assert(self@.entries =~= want.entries);
        }
        Ok(())
    }

    fn is_virt_page_slice_mmio(&self, virt_pages: &PageSliceDescriptor<Virtual>) -> (r: bool) {
        let first: usize = virt_pages.start.value / KERNEL_GRANULE_SIZE;
        first < self.pages.len() && (first >= self.mmio_start || self.mmio_start - first
            < virt_pages.num_pages)
    }

    fn next_mmio_virt_page_slice(&mut self, num_pages: usize) -> (r: Result<
        PageSliceDescriptor<Virtual>,
        &'static str,
    >) {
        if !self.initialized {
            return Err("Translation tables are not initialized");
        }
        if num_pages == 0 {
            return Err("num_pages == 0");
        }
        if num_pages > self.pages.len() - self.cur_mmio {
            return Err("Not enough MMIO space left");
        }
        let start: usize = self.cur_mmio * KERNEL_GRANULE_SIZE;
        self.cur_mmio = self.cur_mmio + num_pages;
        Ok(PageSliceDescriptor { start: Address { value: start, kind: PhantomData }, num_pages })
    }

    fn phys_base_address(&self) -> (r: Address<Physical>) {
        self.phys_base
    }

    fn try_walk(&self, virt: Address<Virtual>) -> (r: Option<Address<Physical>>) {
        let page: usize = virt.value / KERNEL_GRANULE_SIZE;
        if page >= self.pages.len() {
            return None;
        }
        match self.pages[page] {
            Some(descriptor) => {
                assert(slot_ok(self.pages@[page as int]));
                Some(
                    Address {
                        value: descriptor.output_addr + virt.value % KERNEL_GRANULE_SIZE,
                        kind: PhantomData,
                    },
                )
            },
            None => None,
        }
    }
}

} // verus!
