use rv_kernel::address::{PhysicalAddress, PhysicalPageNumber, VirtualAddress, VirtualPageNumber};
use rv_kernel::config::{KERNEL_MAP_OFFSET, KERNEL_MAP_OFFSET_PAGES, PAGE_SIZE};

#[test]
fn physical_page_number_round_trips_on_aligned_address() {
    let a = PhysicalAddress(0x8020_0000);
    let n = PhysicalPageNumber::from_address(a);
    assert_eq!(n, PhysicalPageNumber(0x8020_0000 / 4096));
    assert_eq!(n.address(), a);
}

#[test]
fn virtual_page_number_round_trips_on_aligned_address() {
    let a = VirtualAddress(0xffff_ffff_8020_1000);
    let n = VirtualPageNumber::from_address(a);
    assert_eq!(n.address(), a);
}

#[test]
fn floor_and_ceil_agree_only_on_aligned_addresses() {
    assert_eq!(PhysicalPageNumber::floor(PhysicalAddress(0)), PhysicalPageNumber(0));
    assert_eq!(PhysicalPageNumber::ceil(PhysicalAddress(0)), PhysicalPageNumber(0));
    assert_eq!(PhysicalPageNumber::floor(PhysicalAddress(1)), PhysicalPageNumber(0));
    assert_eq!(PhysicalPageNumber::ceil(PhysicalAddress(1)), PhysicalPageNumber(1));
    assert_eq!(PhysicalPageNumber::floor(PhysicalAddress(4095)), PhysicalPageNumber(0));
    assert_eq!(PhysicalPageNumber::ceil(PhysicalAddress(4095)), PhysicalPageNumber(1));
    assert_eq!(PhysicalPageNumber::floor(PhysicalAddress(4096)), PhysicalPageNumber(1));
    assert_eq!(PhysicalPageNumber::ceil(PhysicalAddress(4096)), PhysicalPageNumber(1));
    assert_eq!(PhysicalPageNumber::floor(PhysicalAddress(4097)), PhysicalPageNumber(1));
    assert_eq!(PhysicalPageNumber::ceil(PhysicalAddress(4097)), PhysicalPageNumber(2));
    assert_eq!(VirtualPageNumber::floor(VirtualAddress(8191)), VirtualPageNumber(1));
    assert_eq!(VirtualPageNumber::ceil(VirtualAddress(8191)), VirtualPageNumber(2));
}

#[test]
fn ceil_handles_the_largest_address() {
    let a = PhysicalAddress(u64::MAX);
    assert_eq!(PhysicalPageNumber::floor(a), PhysicalPageNumber(u64::MAX / PAGE_SIZE));
    assert_eq!(PhysicalPageNumber::ceil(a), PhysicalPageNumber(u64::MAX / PAGE_SIZE + 1));
}

#[test]
fn page_offset_extracts_low_bits() {
    assert_eq!(VirtualAddress(0x1234).page_offset(), 0x234);
    assert_eq!(VirtualAddress(0x1000).page_offset(), 0);
    assert_eq!(PhysicalAddress(0x8020_0fff).page_offset(), 0xfff);
}

#[test]
fn kernel_map_adds_the_fixed_offset_and_round_trips() {
    let pa = PhysicalAddress(0x8020_0000);
    let va = pa.to_virtual();
    assert_eq!(va, VirtualAddress(0x8020_0000 + KERNEL_MAP_OFFSET));
    assert_eq!(va.to_physical(), pa);
}

#[test]
fn kernel_map_round_trips_page_numbers() {
    let ppn = PhysicalPageNumber(0x8020_0000 / 4096);
    let vpn = ppn.to_virtual();
    assert_eq!(vpn, VirtualPageNumber(0x8020_0000 / 4096 + KERNEL_MAP_OFFSET_PAGES));
    assert_eq!(vpn.to_physical(), ppn);
}

#[test]
fn levels_splits_nine_bit_fields_top_first() {
    let v = VirtualPageNumber(5 * (1 << 18) + 7 * (1 << 9) + 9);
    assert_eq!(v.levels(), [5, 7, 9]);
}

#[test]
fn levels_ignores_bits_above_twenty_seven() {
    let low = 5 * (1 << 18) + 7 * (1 << 9) + 9;
    let v = VirtualPageNumber((3 << 40) + (1 << 27) + low);
    assert_eq!(v.levels(), [5, 7, 9]);
}

#[test]
fn levels_reconstructs_the_low_bits() {
    let raw: u64 = 0x0123_4567_89ab_cdef;
    let v = VirtualPageNumber(raw);
    let [l0, l1, l2] = v.levels();
    assert!(l0 < 512 && l1 < 512 && l2 < 512);
    assert_eq!(l0 * (1 << 18) + l1 * (1 << 9) + l2, raw % (1 << 27));
}

#[test]
fn zero_is_the_only_invalid_value() {
    assert!(!VirtualAddress(0).valid());
    assert!(!PhysicalAddress(0).valid());
    assert!(!VirtualPageNumber(0).valid());
    assert!(!PhysicalPageNumber(0).valid());
    assert!(VirtualAddress(1).valid());
    assert!(PhysicalAddress(0x8000_0000).valid());
    assert!(VirtualPageNumber(0xffff).valid());
    assert!(PhysicalPageNumber(0xffff).valid());
}

#[test]
fn offset_in_pages_matches_offset_in_bytes() {
    assert_eq!(KERNEL_MAP_OFFSET_PAGES, KERNEL_MAP_OFFSET / PAGE_SIZE);
    assert_eq!(KERNEL_MAP_OFFSET % PAGE_SIZE, 0);
}
