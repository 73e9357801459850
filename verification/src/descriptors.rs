//! Runs of whole pages, device register windows and mapping attributes.

use crate::types::{align_down_spec, is_aligned_spec, Address, Physical, KERNEL_GRANULE_SIZE};
use core::marker::PhantomData;
use vstd::prelude::*;

verus! {

/// How the memory behind a mapping is to be treated.
#[derive(Clone, Copy, Debug, PartialEq, Eq, Structural)]
pub enum MemAttributes {
    /// Ordinary memory, cached.
    CacheableDRAM,
    /// Device registers, never cached.
    Device,
}

/// What may be done with the memory behind a mapping.
#[derive(Clone, Copy, Debug, PartialEq, Eq, Structural)]
pub enum AccessPermissions {
    /// Reads only.
    ReadOnly,
    /// Reads and writes.
    ReadWrite,
}

/// The attributes of a mapping. They stay as they were installed.
#[derive(Clone, Copy, Debug, PartialEq, Eq, Structural)]
pub struct AttributeFields {
    /// The kind of memory.
    pub mem_attributes: MemAttributes,
    /// The accesses allowed.
    pub acc_perms: AccessPermissions,
    /// Whether instructions may not be fetched from the memory.
    pub execute_never: bool,
}

/// The attributes of every device mapping: device memory, readable and
/// writable, never executable.
pub open spec fn mmio_attributes() -> AttributeFields {
    AttributeFields {
        mem_attributes: MemAttributes::Device,
        acc_perms: AccessPermissions::ReadWrite,
        execute_never: true,
    }
}

/// A run of whole pages in one kind of address space.
#[derive(Debug, PartialEq, Eq)]
pub struct PageSliceDescriptor<K> {
    /// The address of the first page.
    pub start: Address<K>,
    /// The number of pages.
    pub num_pages: usize,
}

impl<K> Clone for PageSliceDescriptor<K> {
    fn clone(&self) -> (r: Self)
        ensures
            r == *self,
    {
        PageSliceDescriptor { start: self.start, num_pages: self.num_pages }
    }
}

impl<K> Copy for PageSliceDescriptor<K> {

}

impl<K> PageSliceDescriptor<K> {
    /// The run starts on a page boundary, holds at least one page and ends
    /// within the machine's address range.
    pub open spec fn wf(&self) -> bool {
        &&& is_aligned_spec(self.start.value as int, KERNEL_GRANULE_SIZE as int)
        &&& self.num_pages > 0
        &&& self.start.value + self.num_pages * KERNEL_GRANULE_SIZE <= usize::MAX
    }

    /// The number of the first page of the run.
    pub open spec fn first_page(&self) -> int {
        self.start.value as int / KERNEL_GRANULE_SIZE as int
    }

    /// The number of the page after the last one of the run.
    pub open spec fn end_page(&self) -> int {
        self.first_page() + self.num_pages
    }

    /// Whether the run holds the page with number `page`.
    pub open spec fn contains_page(&self, page: int) -> bool {
        self.first_page() <= page < self.end_page()
    }

    /// Whether the run holds the address `addr`.
    pub open spec fn contains_addr(&self, addr: int) -> bool {
        self.start.value <= addr < self.start.value + self.num_pages * KERNEL_GRANULE_SIZE
    }

    /// Whether `start` and `num_pages` describe a run of pages.
    pub open spec fn fits(start: Address<K>, num_pages: usize) -> bool {
        (PageSliceDescriptor::<K> { start, num_pages }).wf()
    }

    /// Tests whether `start` and `num_pages` describe a run of pages.
    pub fn is_valid(start: Address<K>, num_pages: usize) -> (r: bool)
        ensures
            r == Self::fits(start, num_pages),
    {
        if start.value % KERNEL_GRANULE_SIZE != 0 || num_pages == 0 {
            return false;
        }
        match num_pages.checked_mul(KERNEL_GRANULE_SIZE) {
            Some(size) => size <= usize::MAX - start.value,
            None => false,
        }
    }

    /// The run of `num_pages` pages that starts at `start`.
    pub fn from_addr(start: Address<K>, num_pages: usize) -> (r: Self)
        requires
            Self::fits(start, num_pages),
        ensures
            r == (PageSliceDescriptor::<K> { start, num_pages }),
            r.wf(),
    {
        PageSliceDescriptor { start, num_pages }
    }

    /// The address of the first page.
    pub fn start_addr(&self) -> (r: Address<K>)
        ensures
            r == self.start,
    {
        self.start
    }

    /// The number of pages.
    pub fn num_pages(&self) -> (r: usize)
        ensures
            r == self.num_pages,
    {
        self.num_pages
    }

    /// The length of the run in bytes.
    pub fn size(&self) -> (r: usize)
        requires
            self.wf(),
        ensures
            r == self.num_pages * KERNEL_GRANULE_SIZE,
    {
        self.num_pages * KERNEL_GRANULE_SIZE
    }

    /// The address after the last byte of the run.
    pub fn end_addr(&self) -> (r: Address<K>)
        requires
            self.wf(),
        ensures
            r.value == self.start.value + self.num_pages * KERNEL_GRANULE_SIZE,
    {
        Address { value: self.start.value + self.num_pages * KERNEL_GRANULE_SIZE, kind: PhantomData }
    }

    /// The address of the last byte of the run.
    pub fn end_addr_inclusive(&self) -> (r: Address<K>)
        requires
            self.wf(),
        ensures
            r.value == self.start.value + self.num_pages * KERNEL_GRANULE_SIZE - 1,
    {
        Address {
            value: self.start.value + (self.num_pages * KERNEL_GRANULE_SIZE - 1),
            kind: PhantomData,
        }
    }

    /// Whether two runs are the same run: same start, same number of pages.
    pub fn same_as(&self, other: &Self) -> (r: bool)
        ensures
            r == (*self == *other),
    {
        self.start.value == other.start.value && self.num_pages == other.num_pages
    }

    /// Whether the run holds the address `addr`.
    pub fn contains(&self, addr: Address<K>) -> (r: bool)
        requires
            self.wf(),
        ensures
            r == self.contains_addr(addr.value as int),
    {
        self.start.value <= addr.value && addr.value - self.start.value < self.num_pages
            * KERNEL_GRANULE_SIZE
    }
}

/// The register window of one device: a physical start address and a length
/// in bytes, neither of them bound to page boundaries.
#[derive(Clone, Copy, Debug, PartialEq, Eq)]
pub struct MMIODescriptor {
    /// The address of the first byte.
    pub start_addr: Address<Physical>,
    /// The length in bytes.
    pub size: usize,
}

/// The start of the first page that a window of `size` bytes at `start`
/// touches.
pub open spec fn mmio_page_start(start: int, size: int) -> int {
    align_down_spec(start, KERNEL_GRANULE_SIZE as int)
}

/// The number of pages that a window of `size` bytes at `start` touches.
pub open spec fn mmio_page_count(start: int, size: int) -> int {
    (start + size - 1) / (KERNEL_GRANULE_SIZE as int) - start / (KERNEL_GRANULE_SIZE as int) + 1
}

impl MMIODescriptor {
    /// The window is not empty, and the pages it touches end within the
    /// machine's address range.
    pub open spec fn wf(&self) -> bool {
        &&& self.size > 0
        &&& mmio_page_start(self.start_addr.value as int, self.size as int) + mmio_page_count(
            self.start_addr.value as int,
            self.size as int,
        ) * KERNEL_GRANULE_SIZE <= usize::MAX
    }

    /// The pages that the window touches: from the page that holds its first
    /// byte to the page that holds its last.
    pub open spec fn page_slice(&self) -> PageSliceDescriptor<Physical> {
        PageSliceDescriptor {
            start: Address {
                value: mmio_page_start(self.start_addr.value as int, self.size as int) as usize,
                kind: PhantomData,
            },
            num_pages: mmio_page_count(self.start_addr.value as int, self.size as int) as usize,
        }
    }

    /// The distance of the window's first byte from the start of its page.
    pub open spec fn page_offset(&self) -> int {
        self.start_addr.value as int % KERNEL_GRANULE_SIZE as int
    }

    /// Whether `start_addr` and `size` describe a register window.
    pub open spec fn fits(start_addr: Address<Physical>, size: usize) -> bool {
        (MMIODescriptor { start_addr, size }).wf()
    }

    /// Tests whether `start_addr` and `size` describe a register window.
    pub fn is_valid(start_addr: Address<Physical>, size: usize) -> (r: bool)
        ensures
            r == Self::fits(start_addr, size),
    {
        if size == 0 || size - 1 > usize::MAX - start_addr.value {
            return false;
        }
        let last: usize = start_addr.value + (size - 1);
        let last_page_start: usize = last - last % KERNEL_GRANULE_SIZE;
        last_page_start <= usize::MAX - KERNEL_GRANULE_SIZE
    }

    /// The window of `size` bytes that starts at `start_addr`.
    pub fn new(start_addr: Address<Physical>, size: usize) -> (r: Self)
        requires
            Self::fits(start_addr, size),
        ensures
            r == (MMIODescriptor { start_addr, size }),
            r.wf(),
    {
        MMIODescriptor { start_addr, size }
    }

    /// The address of the first byte.
    pub fn start_addr(&self) -> (r: Address<Physical>)
        ensures
            r == self.start_addr,
    {
        self.start_addr
    }

    /// The length in bytes.
    pub fn size(&self) -> (r: usize)
        ensures
            r == self.size,
    {
        self.size
    }

    /// The address of the last byte.
    pub fn end_addr_inclusive(&self) -> (r: Address<Physical>)
        requires
            self.wf(),
        ensures
            r.value == self.start_addr.value + self.size - 1,
    {
        Address { value: self.start_addr.value + (self.size - 1), kind: PhantomData }
    }

    /// The pages that the window touches. The run covers every byte of the
    /// window, and no page of it lies wholly outside the window.
    pub fn to_page_slice(&self) -> (r: PageSliceDescriptor<Physical>)
        requires
            self.wf(),
        ensures
            r == self.page_slice(),
            r.wf(),
            r.start.value + self.page_offset() == self.start_addr.value,
            r.start.value <= self.start_addr.value < r.start.value + KERNEL_GRANULE_SIZE,
            self.start_addr.value + self.size <= r.start.value + r.num_pages * KERNEL_GRANULE_SIZE,
            r.start.value + (r.num_pages - 1) * KERNEL_GRANULE_SIZE < self.start_addr.value
                + self.size,
    {
        let start_page: usize = self.start_addr.value - self.start_addr.value
            % KERNEL_GRANULE_SIZE;
        let last: usize = self.start_addr.value + (self.size - 1);
        let num_pages: usize = (last - start_page) / KERNEL_GRANULE_SIZE + 1;
        PageSliceDescriptor { start: Address { value: start_page, kind: PhantomData }, num_pages }
    }
}

} // verus!
