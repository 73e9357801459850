//! The record of the mappings that the kernel has made.

use crate::descriptors::{AttributeFields, MMIODescriptor, PageSliceDescriptor};
use crate::types::{Address, Physical, Virtual};
use vstd::prelude::*;

verus! {

/// The number of entries that the record can hold.
pub const MAPPING_RECORD_CAPACITY: usize = 12;

/// One mapping: who asked for it, the pages on both sides, the attributes.
#[derive(Clone, Copy, Debug)]
pub struct MappingRecordEntry {
    /// The owner of the mapping.
    pub name: &'static str,
    /// The virtual pages.
    pub virt_pages: PageSliceDescriptor<Virtual>,
    /// The physical pages.
    pub phys_pages: PageSliceDescriptor<Physical>,
    /// The attributes of the mapping.
    pub attribute_fields: AttributeFields,
}

/// The mappings made so far, oldest first. Entries are added at the end and
/// never changed or removed.
pub struct MappingRecord {
    /// The entries, in the order in which they were added.
    pub entries: Vec<MappingRecordEntry>,
}

/// Whether entry `i` of `entries` is the oldest one that maps exactly the
/// physical pages `phys`.
pub open spec fn is_first_match(
    entries: Seq<MappingRecordEntry>,
    phys: PageSliceDescriptor<Physical>,
    i: int,
) -> bool {
    &&& 0 <= i < entries.len()
    &&& entries[i].phys_pages == phys
    &&& forall|j: int| 0 <= j < i ==> entries[j].phys_pages != phys
}

/// Whether some entry of `entries` maps exactly the physical pages `phys`.
pub open spec fn has_match(
    entries: Seq<MappingRecordEntry>,
    phys: PageSliceDescriptor<Physical>,
) -> bool {
    exists|i: int| 0 <= i < entries.len() && #[trigger] entries[i].phys_pages == phys
}

/// The index of the oldest entry of `entries` that maps exactly the physical
/// pages `phys`, where there is one.
pub open spec fn first_match(
    entries: Seq<MappingRecordEntry>,
    phys: PageSliceDescriptor<Physical>,
) -> int {
    choose|i: int| is_first_match(entries, phys, i)
}

/// What the record holds after `entry` was handed to it: the entry is added
/// at the end while there is room, and lost otherwise.
pub open spec fn record_after_add(
    entries: Seq<MappingRecordEntry>,
    entry: MappingRecordEntry,
) -> Seq<MappingRecordEntry> {
    if entries.len() < MAPPING_RECORD_CAPACITY {
        entries.push(entry)
    } else {
        entries
    }
}

/// The entry that records a further owner `name` of the mapping `found`.
pub open spec fn duplicate_entry(found: MappingRecordEntry, name: &'static str) -> MappingRecordEntry {
    MappingRecordEntry {
        name,
        virt_pages: found.virt_pages,
        phys_pages: found.phys_pages,
        attribute_fields: found.attribute_fields,
    }
}

/// The oldest match is the only index that `is_first_match` accepts.
pub proof fn lemma_first_match_unique(
    entries: Seq<MappingRecordEntry>,
    phys: PageSliceDescriptor<Physical>,
    i: int,
)
    requires
        is_first_match(entries, phys, i),
    ensures
        first_match(entries, phys) == i,
        has_match(entries, phys),
{
    let c = first_match(entries, phys);
    assert(is_first_match(entries, phys, c));
    if c < i {
        assert(entries[c].phys_pages == phys);
    }
    if i < c {
        assert(entries[i].phys_pages == phys);
    }
}

/// Below a match there is an oldest match.
proof fn lemma_oldest_match_exists(
    entries: Seq<MappingRecordEntry>,
    phys: PageSliceDescriptor<Physical>,
    i: int,
)
    requires
        0 <= i < entries.len(),
        entries[i].phys_pages == phys,
    ensures
        exists|k: int| is_first_match(entries, phys, k),
    decreases i,
{
    if forall|j: int| 0 <= j < i ==> entries[j].phys_pages != phys {
        assert(is_first_match(entries, phys, i));
    } else {
        let j = choose|j: int| 0 <= j < i && entries[j].phys_pages == phys;
        lemma_oldest_match_exists(entries, phys, j);
    }
}

/// Where there is a match, `first_match` is the oldest one.
pub proof fn lemma_has_match_first(
    entries: Seq<MappingRecordEntry>,
    phys: PageSliceDescriptor<Physical>,
)
    requires
        has_match(entries, phys),
    ensures
        is_first_match(entries, phys, first_match(entries, phys)),
{
    let i = choose|i: int| 0 <= i < entries.len() && #[trigger] entries[i].phys_pages == phys;
    lemma_oldest_match_exists(entries, phys, i);
}

impl MappingRecord {
    /// The entries, oldest first.
    pub open spec fn view(&self) -> Seq<MappingRecordEntry> {
        self.entries@
    }

    /// The record holds no more entries than it has room for, and each of
    /// them names runs of pages.
    pub open spec fn wf(&self) -> bool {
        &&& self.entries@.len() <= MAPPING_RECORD_CAPACITY
        &&& forall|i: int|
            0 <= i < self.entries@.len() ==> (#[trigger] self.entries@[i]).virt_pages.wf()
                && self.entries@[i].phys_pages.wf()
    }

    /// The empty record.
    pub fn new() -> (r: Self)
        ensures
            r@ == Seq::<MappingRecordEntry>::empty(),
            r.wf(),
    {
        MappingRecord { entries: Vec::new() }
    }

    /// The number of entries.
    pub fn len(&self) -> (r: usize)
        ensures
            r == self@.len(),
    {
        self.entries.len()
    }

    /// Whether the record has no room for a further entry.
    pub fn is_full(&self) -> (r: bool)
        ensures
            r == (self@.len() >= MAPPING_RECORD_CAPACITY),
    {
        self.entries.len() >= MAPPING_RECORD_CAPACITY
    }

    /// Entry `index`, counted from the oldest.
    pub fn get(&self, index: usize) -> (r: Option<MappingRecordEntry>)
        ensures
            index < self@.len() ==> r == Some(self@[index as int]),
            index >= self@.len() ==> r is None,
    {
        if index < self.entries.len() {
            Some(self.entries[index])
        } else {
            None
        }
    }

    /// Adds an entry at the end. A full record refuses it and stays as it
    /// was.
    pub fn add(
        &mut self,
        name: &'static str,
        virt_pages: &PageSliceDescriptor<Virtual>,
        phys_pages: &PageSliceDescriptor<Physical>,
        attr: &AttributeFields,
    ) -> (r: Result<(), &'static str>)
        requires
            old(self).wf(),
            virt_pages.wf(),
            phys_pages.wf(),
        ensures
            final(self).wf(),
            old(self)@.len() < MAPPING_RECORD_CAPACITY ==> r is Ok && final(self)@ == old(self)@.push(
                (MappingRecordEntry {
                    name,
                    virt_pages: *virt_pages,
                    phys_pages: *phys_pages,
                    attribute_fields: *attr,
                }),
            ),
            old(self)@.len() >= MAPPING_RECORD_CAPACITY ==> r == Err::<(), &'static str>(
                "Storage for mapping info exhausted",
            ) && final(self)@ == old(self)@,
    {
        if self.entries.len() >= MAPPING_RECORD_CAPACITY {
            return Err("Storage for mapping info exhausted");
        }
        self.entries.push(
            MappingRecordEntry {
                name,
                virt_pages: *virt_pages,
                phys_pages: *phys_pages,
                attribute_fields: *attr,
            },
        );
        Ok(())
    }

    /// The index of the oldest entry that maps exactly the physical pages
    /// `phys_pages`. A run that only overlaps them is no match.
    pub fn find_duplicate(&self, phys_pages: &PageSliceDescriptor<Physical>) -> (r: Option<usize>)
        ensures
            r is Some <==> has_match(self@, *phys_pages),
            r is Some ==> is_first_match(self@, *phys_pages, r->Some_0 as int)
                && r->Some_0 == first_match(self@, *phys_pages),
    {
        let mut i: usize = 0;
        while i < self.entries.len()
            invariant
                i <= self.entries@.len(),
                forall|j: int| 0 <= j < i ==> self.entries@[j].phys_pages != *phys_pages,
            decreases self.entries@.len() - i,
        {
            if self.entries[i].phys_pages.same_as(phys_pages) {
                proof {
                    lemma_first_match_unique(self@, *phys_pages, i as int);
                }
                return Some(i);
            }
            i = i + 1;
        }
        None
    }

    /// Looks for a mapping of exactly the pages that the register window
    /// `mmio_descriptor` touches. Where there is one, records `new_name` as a
    /// further owner of it, in an entry of its own with the same pages and
    /// attributes, and returns the start of its virtual pages; a full record
    /// loses that entry and the address is returned all the same. Where there
    /// is none, the record stays as it was.
    pub fn find_and_insert_mmio_duplicate(
        &mut self,
        mmio_descriptor: &MMIODescriptor,
        new_name: &'static str,
    ) -> (r: Option<Address<Virtual>>)
        requires
            old(self).wf(),
            mmio_descriptor.wf(),
        ensures
            final(self).wf(),
            r is Some <==> has_match(old(self)@, mmio_descriptor.page_slice()),
            r is None ==> final(self)@ == old(self)@,
            r is Some ==> {
                let found = old(self)@[first_match(old(self)@, mmio_descriptor.page_slice())];
                &&& r == Some(found.virt_pages.start)
                &&& final(self)@ == record_after_add(old(self)@, duplicate_entry(found, new_name))
            },
    {
        let phys_pages = mmio_descriptor.to_page_slice();
        match self.find_duplicate(&phys_pages) {
            Some(index) => {
                let found = self.entries[index];
                let _ = self.add(new_name, &found.virt_pages, &found.phys_pages, &found.attribute_fields);
                Some(found.virt_pages.start)
            },
            None => None,
        }
    }
}

} // verus!
