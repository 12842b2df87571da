//! Physical and virtual addresses and page numbers.
//!
//! Four distinct value types wrap a single machine word each: an address or a
//! page number, physical or virtual.  A page number is its address divided by
//! [`PAGE_SIZE`]; the exact conversion demands page alignment, and `floor` /
//! `ceil` serve unaligned callers.  A virtual address is its physical address
//! plus [`KERNEL_MAP_OFFSET`], and the relation round-trips exactly.

use vstd::prelude::*;

use crate::config::{KERNEL_MAP_OFFSET, KERNEL_MAP_OFFSET_PAGES, PAGE_SIZE};
use bit_field::BitField;

verus! {

/// A virtual address: one machine word.
#[derive(Copy, Clone, Debug, Default, Eq, PartialEq, Ord, PartialOrd, Hash, Structural)]
pub struct VirtualAddress(pub u64);

/// A physical address: one machine word.
#[derive(Copy, Clone, Debug, Default, Eq, PartialEq, Ord, PartialOrd, Hash, Structural)]
pub struct PhysicalAddress(pub u64);

/// A virtual page number: a virtual address divided by [`PAGE_SIZE`].
#[derive(Copy, Clone, Debug, Default, Eq, PartialEq, Ord, PartialOrd, Hash, Structural)]
pub struct VirtualPageNumber(pub u64);

/// A physical page number: a physical address divided by [`PAGE_SIZE`].
#[derive(Copy, Clone, Debug, Default, Eq, PartialEq, Ord, PartialOrd, Hash, Structural)]
pub struct PhysicalPageNumber(pub u64);

/// An address word is page-aligned when it is a multiple of the page size.
pub open spec fn page_aligned(a: u64) -> bool {
    a % PAGE_SIZE == 0
}

/// The page number of the last page boundary at or below `a`.
pub open spec fn page_floor(a: u64) -> u64 {
    a / PAGE_SIZE
}

/// The page number of the first page boundary at or above `a`.
pub open spec fn page_ceil(a: u64) -> u64 {
    if page_aligned(a) {
        a / PAGE_SIZE
    } else {
        (a / PAGE_SIZE + 1) as u64
    }
}

/// Relies on `bit_field::BitField::get_bits` on `u64`: the bits of `v` at
/// positions `low..high`, shifted down to position zero.
#[verifier::external_body]
fn get_bits(v: u64, low: usize, high: usize) -> (r: u64)
    requires
        low < high,
        high < 64,
    ensures
        r == (v >> low as u64) % (1u64 << (high - low) as u64),
{
    v.get_bits(low..high)
}

impl VirtualAddress {
    /// The physical address mapped to this virtual address, one fixed
    /// offset below it.
    pub fn to_physical(self) -> (r: PhysicalAddress)
        requires
            self.0 >= KERNEL_MAP_OFFSET,
        ensures
            r.0 == self.0 - KERNEL_MAP_OFFSET,
    {
        PhysicalAddress(self.0 - KERNEL_MAP_OFFSET)
    }

    /// The offset of this address within its page.
    pub fn page_offset(&self) -> (r: u64)
        ensures
            r == self.0 % PAGE_SIZE,
    {
        self.0 % PAGE_SIZE
    }

    /// An address of zero marks the absence of a mapping.
    pub fn valid(&self) -> (r: bool)
        ensures
            r == (self.0 != 0),
    {
        self.0 != 0
    }
}

impl PhysicalAddress {
    /// The kernel-space virtual address of this physical address, one fixed
    /// offset above it.
    pub fn to_virtual(self) -> (r: VirtualAddress)
        requires
            self.0 + KERNEL_MAP_OFFSET <= u64::MAX,
        ensures
            r.0 == self.0 + KERNEL_MAP_OFFSET,
    {
        VirtualAddress(self.0 + KERNEL_MAP_OFFSET)
    }

    /// The offset of this address within its page.
    pub fn page_offset(&self) -> (r: u64)
        ensures
            r == self.0 % PAGE_SIZE,
    {
        self.0 % PAGE_SIZE
    }

    /// An address of zero marks the absence of a mapping.
    pub fn valid(&self) -> (r: bool)
        ensures
            r == (self.0 != 0),
    {
        self.0 != 0
    }
}

impl VirtualPageNumber {
    /// The page number of a page-aligned virtual address.  Exactness is
    /// owed to the caller: an unaligned address is a programming error and
    /// is excluded, not truncated.
    pub fn from_address(a: VirtualAddress) -> (r: Self)
        requires
            page_aligned(a.0),
        ensures
            r.0 == page_floor(a.0),
            r.0 * PAGE_SIZE == a.0,
    {
        proof {
            lemma_page_number_round_trip(a.0);
        }
        VirtualPageNumber(a.0 / PAGE_SIZE)
    }

    /// The page number of the last page boundary at or below `a`.
    pub fn floor(a: VirtualAddress) -> (r: Self)
        ensures
            r.0 == page_floor(a.0),
    {
        VirtualPageNumber(a.0 / PAGE_SIZE)
    }

    /// The page number of the first page boundary at or above `a`.
    pub fn ceil(a: VirtualAddress) -> (r: Self)
        ensures
            r.0 == page_ceil(a.0),
    {
        VirtualPageNumber(a.0 / PAGE_SIZE + if a.0 % PAGE_SIZE != 0 { 1 } else { 0 })
    }

    /// The virtual address at which this page begins.
    pub fn address(self) -> (r: VirtualAddress)
        requires
            self.0 * PAGE_SIZE <= u64::MAX,
        ensures
            r.0 == self.0 * PAGE_SIZE,
    {
        VirtualAddress(self.0 * PAGE_SIZE)
    }

    /// The physical page number mapped to this virtual page number.
    pub fn to_physical(self) -> (r: PhysicalPageNumber)
        requires
            self.0 >= KERNEL_MAP_OFFSET_PAGES,
        ensures
            r.0 == self.0 - KERNEL_MAP_OFFSET_PAGES,
    {
        PhysicalPageNumber(self.0 - KERNEL_MAP_OFFSET_PAGES)
    }

    /// The three page-table indices of this page number, top level first:
    /// bits 18 to 27, bits 9 to 18, and bits 0 to 9, nine bits each.
    pub fn levels(self) -> (r: [u64; 3])
        ensures
            r@.len() == 3,
            r@[0] == (self.0 / 0x40000) % 512,
            r@[1] == (self.0 / 0x200) % 512,
            r@[2] == self.0 % 512,
            r@[0] < 512 && r@[1] < 512 && r@[2] < 512,
            r@[0] * 0x40000 + r@[1] * 0x200 + r@[2] == self.0 % 0x8000000,
    {
        let v: u64 = self.0;
        let l0 = get_bits(v, 18, 27);
        let l1 = get_bits(v, 9, 18);
        let l2 = get_bits(v, 0, 9);
        proof {
            assert(l0 == (v / 0x40000) % 512) by (bit_vector)
                requires
                    l0 == (v >> 18u64) % (1u64 << 9u64),
            ;
            assert(l1 == (v / 0x200) % 512) by (bit_vector)
                requires
                    l1 == (v >> 9u64) % (1u64 << 9u64),
            ;
            assert(l2 == v % 512) by (bit_vector)
                requires
                    l2 == (v >> 0u64) % (1u64 << 9u64),
            ;
            lemma_levels_reconstruct(v);
        }
        [l0, l1, l2]
    }

    /// A page number of zero marks the absence of a mapping.
    pub fn valid(&self) -> (r: bool)
        ensures
            r == (self.0 != 0),
    {
        self.0 != 0
    }
}

impl PhysicalPageNumber {
    /// The page number of a page-aligned physical address.  Exactness is
    /// owed to the caller: an unaligned address is a programming error and
    /// is excluded, not truncated.
    pub fn from_address(a: PhysicalAddress) -> (r: Self)
        requires
            page_aligned(a.0),
        ensures
            r.0 == page_floor(a.0),
            r.0 * PAGE_SIZE == a.0,
    {
        proof {
            lemma_page_number_round_trip(a.0);
        }
        PhysicalPageNumber(a.0 / PAGE_SIZE)
    }

    /// The page number of the last page boundary at or below `a`.
    pub fn floor(a: PhysicalAddress) -> (r: Self)
        ensures
            r.0 == page_floor(a.0),
    {
        PhysicalPageNumber(a.0 / PAGE_SIZE)
    }

    /// The page number of the first page boundary at or above `a`.
    pub fn ceil(a: PhysicalAddress) -> (r: Self)
        ensures
            r.0 == page_ceil(a.0),
    {
        PhysicalPageNumber(a.0 / PAGE_SIZE + if a.0 % PAGE_SIZE != 0 { 1 } else { 0 })
    }

    /// The physical address at which this page begins.
    pub fn address(self) -> (r: PhysicalAddress)
        requires
            self.0 * PAGE_SIZE <= u64::MAX,
        ensures
            r.0 == self.0 * PAGE_SIZE,
    {
        PhysicalAddress(self.0 * PAGE_SIZE)
    }

    /// The virtual page number mapped to this physical page number.
    pub fn to_virtual(self) -> (r: VirtualPageNumber)
        requires
            self.0 + KERNEL_MAP_OFFSET_PAGES <= u64::MAX,
        ensures
            r.0 == self.0 + KERNEL_MAP_OFFSET_PAGES,
    {
        VirtualPageNumber(self.0 + KERNEL_MAP_OFFSET_PAGES)
    }

    /// A page number of zero marks the absence of a mapping.
    pub fn valid(&self) -> (r: bool)
        ensures
            r == (self.0 != 0),
    {
        self.0 != 0
    }
}

/// Law: converting a page-aligned address word to its page number and back
/// reproduces the word.  Both address families convert with this arithmetic,
/// through `from_address` and `address`.
pub proof fn lemma_page_number_round_trip(a: u64)
    requires
        page_aligned(a),
    ensures
        page_floor(a) * PAGE_SIZE == a,
{
    vstd::arithmetic::div_mod::lemma_fundamental_div_mod(a as int, PAGE_SIZE as int);
}

/// Law: the floor page number never exceeds the ceiling page number, they
/// agree exactly on the page-aligned addresses, and together they bracket
/// the address.
pub proof fn lemma_page_floor_ceil(a: u64)
    ensures
        page_floor(a) <= page_ceil(a),
        page_floor(a) == page_ceil(a) <==> page_aligned(a),
        page_floor(a) * PAGE_SIZE <= a,
        a <= page_ceil(a) * PAGE_SIZE,
{
    vstd::arithmetic::div_mod::lemma_fundamental_div_mod(a as int, PAGE_SIZE as int);
}

/// Law: mapping a physical address into kernel space adds exactly the kernel
/// map offset, and mapping the result back through `to_physical` reproduces
/// the physical address.
pub proof fn lemma_kernel_map_round_trip(pa: u64)
    requires
        pa + KERNEL_MAP_OFFSET <= u64::MAX,
    ensures
        pa + KERNEL_MAP_OFFSET >= KERNEL_MAP_OFFSET,
        (pa + KERNEL_MAP_OFFSET) - KERNEL_MAP_OFFSET == pa,
{
}

/// Law: the three page-table indices that `levels` returns are each below
/// 512 and, weighted by their level, reconstruct the low 27 bits of the
/// page number.
pub proof fn lemma_levels_reconstruct(v: u64)
    ensures
        (v / 0x40000) % 512 < 512,
        (v / 0x200) % 512 < 512,
        v % 512 < 512,
        ((v / 0x40000) % 512) * 0x40000 + ((v / 0x200) % 512) * 0x200 + v % 512 == v
            % 0x8000000,
{
    assert(((v / 0x40000) % 512) * 0x40000 + ((v / 0x200) % 512) * 0x200 + v % 512 == v
        % 0x8000000) by (bit_vector);
}

} // verus!
