//! Fixed parameters of the kernel's memory map and timer.

use vstd::prelude::*;

verus! {

/// Bytes in one page.
pub const PAGE_SIZE: u64 = 4096;

/// Offset added to a physical address to form its direct-mapped kernel
/// virtual address.
pub const KERNEL_MAP_OFFSET: u64 = 0xffff_ffff_0000_0000;

/// The kernel map offset counted in pages rather than bytes.
pub const KERNEL_MAP_OFFSET_PAGES: u64 = KERNEL_MAP_OFFSET / PAGE_SIZE;

/// Bytes reserved at build time for the kernel heap arena.
pub const KERNEL_HEAP_SIZE: u64 = 0x80_0000;

/// Hardware timer counts between two timer interrupts.
pub const TIMER_CLOCK_INTERVAL: u64 = 100_000;

/// Timer ticks between two heartbeat diagnostics.
pub const TICKS_PER_HEARTBEAT: u64 = 100;

} // verus!
