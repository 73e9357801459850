//! Addresses, granules and address-space sizes.

use core::marker::PhantomData;
use vstd::arithmetic::power2::*;
use vstd::prelude::*;

verus! {

/// Tag of addresses that the memory bus sees.
#[derive(Clone, Copy, Debug, PartialEq, Eq)]
pub struct Physical;

/// Tag of addresses that running code sees.
#[derive(Clone, Copy, Debug, PartialEq, Eq)]
pub struct Virtual;

/// An address of one kind. The kind exists at compile time only.
#[derive(Debug, PartialEq, Eq)]
pub struct Address<K> {
    /// The raw address.
    pub value: usize,
    /// The kind of address.
    pub kind: PhantomData<K>,
}

/// Size of one page of the kernel's translation scheme: 64 KiB.
pub const KERNEL_GRANULE_SIZE: usize = 0x1_0000;

/// Bits of a virtual address that the translation hardware can resolve.
pub const MAX_VIRT_ADDR_BITS: usize = 48;

/// Bits of the smallest address space the hardware can manage: one table of
/// 512 MiB.
pub const MIN_VIRT_ADDR_BITS: usize = 29;

/// Whether `n` is a power of two.
pub open spec fn is_power_of_two(n: int) -> bool {
    exists|k: nat| pow2(k) == n
}

/// The exponent `k` with `2^k == n`, for a power of two `n`.
pub open spec fn log2_of(n: int) -> nat
    recommends
        is_power_of_two(n),
{
    choose|k: nat| pow2(k) == n
}

/// Whether the hardware can manage an address space of `size` bytes.
pub open spec fn arch_address_space_size_ok(size: int) -> bool {
    is_power_of_two(size) && MIN_VIRT_ADDR_BITS <= log2_of(size) <= MAX_VIRT_ADDR_BITS
}

/// The largest multiple of `granule` that is not above `value`.
pub open spec fn align_down_spec(value: int, granule: int) -> int {
    value - value % granule
}

/// Whether `value` is a multiple of `granule`.
pub open spec fn is_aligned_spec(value: int, granule: int) -> bool {
    value % granule == 0
}

/// Powers of two grow with the exponent, so each has one exponent only.
pub proof fn lemma_pow2_injective(a: nat, b: nat)
    requires
        pow2(a) == pow2(b),
    ensures
        a == b,
{
    if a < b {
        lemma_pow2_strictly_increases(a, b);
    }
    if b < a {
        lemma_pow2_strictly_increases(b, a);
    }
}

/// The exponent and the power of two at or above `n` that the doubling of 1
/// reaches first, or the last one that fits the machine word.
fn pow2_ceiling(n: usize) -> (r: (usize, usize))
    ensures
        r.1 == pow2(r.0 as nat),
        forall|j: nat| j < r.0 ==> pow2(j) < n,
        r.1 >= n || 2 * r.1 > usize::MAX,
{
    let mut shift: usize = 0;
    let mut value: usize = 1;
    proof {
        lemma2_to64();
    }
    while value < n && value <= usize::MAX / 2
        invariant
            value == pow2(shift as nat),
            value >= 1,
            shift <= value,
            forall|j: nat| j < shift ==> pow2(j) < n,
        decreases usize::MAX - value,
    {
        proof {
            lemma_pow2_unfold((shift + 1) as nat);
            assert forall|j: nat| j < shift + 1 implies pow2(j) < n by {
                if j < shift {
                } else {
                    assert(j == shift);
                }
            }
        }
        value = value * 2;
        shift = shift + 1;
    }
    (shift, value)
}

/// Tests whether `n` is a power of two.
pub fn is_power_of_two_usize(n: usize) -> (r: bool)
    ensures
        r == is_power_of_two(n as int),
{
    let (shift, value) = pow2_ceiling(n);
    proof {
        if value != n {
            assert forall|k: nat| pow2(k) != n by {
                if k < shift {
                } else if k == shift {
                } else {
                    lemma_pow2_strictly_increases(shift as nat, k);
                    lemma_pow2_unfold((shift + 1) as nat);
                    if k > shift + 1 {
                        lemma_pow2_strictly_increases((shift + 1) as nat, k);
                    }
                }
            }
        }
    }
    value == n
}

/// The exponent of the power of two `n`.
pub fn log2_usize(n: usize) -> (r: usize)
    requires
        is_power_of_two(n as int),
    ensures
        pow2(r as nat) == n,
        r == log2_of(n as int),
{
    let (shift, value) = pow2_ceiling(n);
    proof {
        let k = log2_of(n as int);
        if k < shift {
            assert(pow2(k) < n);
        } else if k > shift {
            lemma_pow2_unfold((shift + 1) as nat);
            if k > shift + 1 {
                lemma_pow2_strictly_increases((shift + 1) as nat, k);
            }
            lemma_pow2_strictly_increases(shift as nat, k);
        }
        assert(k == shift);
    }
    shift
}

impl<K> Clone for Address<K> {
    fn clone(&self) -> (r: Self)
        ensures
            r == *self,
    {
        Address { value: self.value, kind: PhantomData }
    }
}

impl<K> Copy for Address<K> {

}

impl<K> Address<K> {
    /// The address with the raw value `value`. Every value is an address.
    pub fn new(value: usize) -> (r: Self)
        ensures
            r.value == value,
            r == (Address::<K> { value, kind: PhantomData }),
    {
        Address { value, kind: PhantomData }
    }

    /// The raw value of the address.
    pub fn into_usize(self) -> (r: usize)
        ensures
            r == self.value,
    {
        self.value
    }

    /// The address `offset` bytes further on, of the same kind, unless that
    /// leaves the machine's address range.
    pub fn checked_add(self, offset: usize) -> (r: Option<Self>)
        ensures
            self.value + offset <= usize::MAX ==> r == Some(
                Address::<K> { value: (self.value + offset) as usize, kind: PhantomData },
            ),
            self.value + offset > usize::MAX ==> r is None,
    {
        match self.value.checked_add(offset) {
            Some(value) => Some(Address { value, kind: PhantomData }),
            None => None,
        }
    }

    /// The distance of the address from the start of its page.
    pub fn offset_into_page(self) -> (r: usize)
        ensures
            r == self.value as int % KERNEL_GRANULE_SIZE as int,
            r < KERNEL_GRANULE_SIZE,
    {
        self.value % KERNEL_GRANULE_SIZE
    }

    /// The start of the page that holds the address.
    pub fn align_down_page(self) -> (r: Self)
        ensures
            r.value == align_down_spec(self.value as int, KERNEL_GRANULE_SIZE as int),
            is_aligned_spec(r.value as int, KERNEL_GRANULE_SIZE as int),
            r.value <= self.value < r.value + KERNEL_GRANULE_SIZE,
    {
        Address { value: self.value - self.value % KERNEL_GRANULE_SIZE, kind: PhantomData }
    }

    /// Whether the address is the start of a page.
    pub fn is_page_aligned(self) -> (r: bool)
        ensures
            r == is_aligned_spec(self.value as int, KERNEL_GRANULE_SIZE as int),
    {
        self.value % KERNEL_GRANULE_SIZE == 0
    }
}

/// The characteristics of a translation granule of `GRANULE_SIZE` bytes.
pub struct TranslationGranule<const GRANULE_SIZE: usize>;

impl<const GRANULE_SIZE: usize> TranslationGranule<GRANULE_SIZE> {
    /// The granule's size. Only a power of two is a granule size.
    pub fn size_checked() -> (r: usize)
        requires
            is_power_of_two(GRANULE_SIZE as int),
        ensures
            r == GRANULE_SIZE,
    {
        GRANULE_SIZE
    }

    /// The granule's mask: the bits of an address below the granule size.
    pub fn mask() -> (r: usize)
        requires
            is_power_of_two(GRANULE_SIZE as int),
        ensures
            r == GRANULE_SIZE - 1,
    {
        proof {
            lemma_pow2_pos(log2_of(GRANULE_SIZE as int));
        }
        GRANULE_SIZE - 1
    }

    /// The granule's shift: the binary logarithm of its size.
    pub fn shift() -> (r: usize)
        requires
            is_power_of_two(GRANULE_SIZE as int),
        ensures
            r == log2_of(GRANULE_SIZE as int),
            pow2(r as nat) == GRANULE_SIZE,
    {
        log2_usize(GRANULE_SIZE)
    }

    /// Whether `GRANULE_SIZE` can be a granule size at all.
    pub fn is_valid() -> (r: bool)
        ensures
            r == is_power_of_two(GRANULE_SIZE as int),
    {
        is_power_of_two_usize(GRANULE_SIZE)
    }
}

/// The granule of the kernel's translation tables.
pub type KernelGranule = TranslationGranule<0x1_0000>;

/// An address space of `AS_SIZE` bytes.
pub struct AddressSpace<const AS_SIZE: usize>;

/// Tests whether the hardware can manage an address space of `size` bytes.
pub fn arch_address_space_size_sanity_checks(size: usize) -> (r: bool)
    ensures
        r == arch_address_space_size_ok(size as int),
{
    if !is_power_of_two_usize(size) {
        return false;
    }
    let shift: usize = log2_usize(size);
    MIN_VIRT_ADDR_BITS <= shift && shift <= MAX_VIRT_ADDR_BITS
}

impl<const AS_SIZE: usize> AddressSpace<AS_SIZE> {
    /// The size of the address space. Only a power of two within the limits
    /// of the hardware is an address-space size.
    pub fn size_checked() -> (r: usize)
        requires
            arch_address_space_size_ok(AS_SIZE as int),
        ensures
            r == AS_SIZE,
    {
        AS_SIZE
    }

    /// The binary logarithm of the size of the address space.
    pub fn size_shift() -> (r: usize)
        requires
            arch_address_space_size_ok(AS_SIZE as int),
        ensures
            r == log2_of(AS_SIZE as int),
            pow2(r as nat) == AS_SIZE,
            MIN_VIRT_ADDR_BITS <= r <= MAX_VIRT_ADDR_BITS,
    {
        log2_usize(AS_SIZE)
    }

    /// Whether `AS_SIZE` can be the size of an address space at all.
    pub fn is_valid() -> (r: bool)
        ensures
            r == arch_address_space_size_ok(AS_SIZE as int),
    {
        arch_address_space_size_sanity_checks(AS_SIZE)
    }
}

} // verus!
