//! The kernel's translation tables: what every implementation owes its
//! callers, and one implementation that keeps a slot for each virtual page.

use crate::descriptors::{AttributeFields, PageSliceDescriptor};
use crate::types::{Address, Physical, Virtual, KERNEL_GRANULE_SIZE};
use core::marker::PhantomData;
use vstd::prelude::*;

verus! {

/// What one virtual page is mapped to.
pub struct PageMapping {
    /// The number of the physical page.
    pub phys_page: int,
    /// The attributes of the mapping.
    pub attr: AttributeFields,
}

/// The state of a set of translation tables, as its callers see it.
pub struct TableView {
    /// Whether the tables were prepared for use.
    pub initialized: bool,
    /// The mapped virtual pages, by page number.
    pub entries: Map<int, PageMapping>,
    /// The number of virtual pages that the tables can map: pages `0` to
    /// `num_pages - 1`.
    pub num_pages: int,
    /// The first page of the region reserved for device mappings.
    pub mmio_start: int,
    /// The page after the last one of that region.
    pub mmio_end: int,
    /// The first page of that region that was not handed out yet.
    pub mmio_next: int,
    /// The physical address of the root table.
    pub phys_base: usize,
}

impl TableView {
    /// The reserved region lies within the tables' pages, the pages handed
    /// out lie within the region, and every mapping names a virtual page of
    /// the tables and a physical page of the machine.
    pub open spec fn wf(&self) -> bool {
        &&& 0 <= self.mmio_start <= self.mmio_next <= self.mmio_end <= self.num_pages
        &&& self.num_pages * KERNEL_GRANULE_SIZE <= usize::MAX
        &&& forall|p: int| #[trigger]
            self.entries.contains_key(p) ==> 0 <= p < self.num_pages && 0
                <= self.entries[p].phys_page && (self.entries[p].phys_page + 1)
                * KERNEL_GRANULE_SIZE <= usize::MAX
    }

    /// Whether the run `virt` shares a page with the reserved region.
    pub open spec fn is_mmio(&self, virt: PageSliceDescriptor<Virtual>) -> bool {
        virt.first_page() < self.mmio_end && self.mmio_start < virt.end_page()
    }

    /// Whether some page of the run `virt` is mapped.
    pub open spec fn is_occupied(&self, virt: PageSliceDescriptor<Virtual>) -> bool {
        exists|p: int| virt.contains_page(p) && #[trigger] self.entries.contains_key(p)
    }

    /// The state after the tables were prepared: nothing changes where they
    /// were prepared before.
    pub open spec fn after_init(&self) -> TableView {
        if self.initialized {
            *self
        } else {
            TableView { initialized: true, mmio_next: self.mmio_start, ..*self }
        }
    }

    /// Why the tables refuse to map the run `virt` to the run `phys`, if
    /// they do.
    pub open spec fn map_pages_error(
        &self,
        virt: PageSliceDescriptor<Virtual>,
        phys: PageSliceDescriptor<Physical>,
    ) -> Option<&'static str> {
        if !self.initialized {
            Some("Translation tables are not initialized")
        } else if virt.num_pages != phys.num_pages {
            Some("Tried to map page slices with unequal sizes")
        } else if virt.end_page() > self.num_pages {
            Some("Tried to map outside of virtual address space")
        } else if self.is_occupied(virt) {
            Some("Virtual page is already mapped")
        } else {
            None
        }
    }

    /// The state after page `i` of `virt` was mapped to page `i` of `phys`,
    /// for every page of the run.
    pub open spec fn after_map(
        &self,
        virt: PageSliceDescriptor<Virtual>,
        phys: PageSliceDescriptor<Physical>,
        attr: AttributeFields,
    ) -> TableView {
        TableView {
            entries: Map::new(
                |p: int| self.entries.contains_key(p) || virt.contains_page(p),
                |p: int|
                    if virt.contains_page(p) {
                        PageMapping { phys_page: phys.first_page() + (p - virt.first_page()), attr }
                    } else {
                        self.entries[p]
                    },
            ),
            ..*self
        }
    }

    /// Why the tables refuse to hand out `num_pages` pages of the reserved
    /// region, if they do.
    pub open spec fn next_mmio_error(&self, num_pages: usize) -> Option<&'static str> {
        if !self.initialized {
            Some("Translation tables are not initialized")
        } else if num_pages == 0 {
            Some("num_pages == 0")
        } else if self.mmio_next + num_pages > self.mmio_end {
            Some("Not enough MMIO space left")
        } else {
            None
        }
    }

    /// The run of `num_pages` pages that is handed out next.
    pub open spec fn next_mmio_slice(&self, num_pages: usize) -> PageSliceDescriptor<Virtual> {
        PageSliceDescriptor {
            start: Address {
                value: (self.mmio_next * KERNEL_GRANULE_SIZE) as usize,
                kind: PhantomData,
            },
            num_pages,
        }
    }

    /// The state after `num_pages` pages of the reserved region were handed
    /// out.
    pub open spec fn after_next_mmio(&self, num_pages: usize) -> TableView {
        TableView { mmio_next: self.mmio_next + num_pages, ..*self }
    }

    /// The physical address that a walk of the tables finds for the virtual
    /// address `virt`: the mapped page, and in it the place that `virt` has
    /// in its own page. Nothing where the page of `virt` is not mapped.
    pub open spec fn walk(&self, virt: Address<Virtual>) -> Option<Address<Physical>> {
        let page = virt.value as int / KERNEL_GRANULE_SIZE as int;
        if self.entries.contains_key(page) {
            Some(
                Address {
                    value: (self.entries[page].phys_page * KERNEL_GRANULE_SIZE + virt.value as int
                        % KERNEL_GRANULE_SIZE as int) as usize,
                    kind: PhantomData,
                },
            )
        } else {
            None
        }
    }
}

/// What a set of translation tables owes its callers, whatever the
/// architecture that implements it.
///
/// Mapping does not look for aliases: two virtual pages may be mapped to one
/// physical page, and it is the caller who answers for that.
pub trait TranslationTable: Sized {
    /// The state of the tables, as their callers see it.
    spec fn view(&self) -> TableView;

    /// What the implementation keeps true of itself.
    spec fn inv(&self) -> bool;

    /// Tables that keep their own invariant show a well-formed state.
    proof fn lemma_inv_implies_wf(&self)
        requires
            self.inv(),
        ensures
            self@.wf(),
    ;

    /// Prepares the tables for use. A second call changes nothing.
    fn init(&mut self)
        requires
            old(self).inv(),
        ensures
            final(self).inv(),
            final(self)@ == old(self)@.after_init(),
    ;

    /// Maps page `i` of `virt_pages` to page `i` of `phys_pages`, for every
    /// page of the run, or refuses and changes nothing.
    fn map_pages_at(
        &mut self,
        virt_pages: &PageSliceDescriptor<Virtual>,
        phys_pages: &PageSliceDescriptor<Physical>,
        attr: &AttributeFields,
    ) -> (r: Result<(), &'static str>)
        requires
            old(self).inv(),
            virt_pages.wf(),
            phys_pages.wf(),
        ensures
            final(self).inv(),
            match old(self)@.map_pages_error(*virt_pages, *phys_pages) {
                Some(e) => r == Err::<(), &'static str>(e) && final(self)@ == old(self)@,
                None => r is Ok && final(self)@ == old(self)@.after_map(
                    *virt_pages,
                    *phys_pages,
                    *attr,
                ),
            },
    ;

    /// Whether the run `virt_pages` shares a page with the region reserved
    /// for device mappings.
    fn is_virt_page_slice_mmio(&self, virt_pages: &PageSliceDescriptor<Virtual>) -> (r: bool)
        requires
            self.inv(),
            virt_pages.wf(),
        ensures
            r == self@.is_mmio(*virt_pages),
    ;

    /// Hands out the next `num_pages` pages of the reserved region that were
    /// not handed out yet, or refuses and changes nothing. The pages handed
    /// out are never taken back.
    fn next_mmio_virt_page_slice(&mut self, num_pages: usize) -> (r: Result<
        PageSliceDescriptor<Virtual>,
        &'static str,
    >)
        requires
            old(self).inv(),
        ensures
            final(self).inv(),
            match old(self)@.next_mmio_error(num_pages) {
                Some(e) => r == Err::<PageSliceDescriptor<Virtual>, &'static str>(e)
                    && final(self)@ == old(self)@,
                None => r == Ok::<PageSliceDescriptor<Virtual>, &'static str>(
                    old(self)@.next_mmio_slice(num_pages),
                ) && final(self)@ == old(self)@.after_next_mmio(num_pages) && r->Ok_0.wf(),
            },
    ;

    /// The physical address of the root table.
    fn phys_base_address(&self) -> (r: Address<Physical>)
        requires
            self.inv(),
        ensures
            r.value == self@.phys_base,
    ;

    /// Walks the tables for the virtual address `virt`, as the translation
    /// hardware does.
    fn try_walk(&self, virt: Address<Virtual>) -> (r: Option<Address<Physical>>)
        requires
            self.inv(),
        ensures
            r == self@.walk(virt),
    ;
}

} // verus!
