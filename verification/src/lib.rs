//! Trap handling and memory addressing for a small RISC-V (RV64) kernel core.
//!
//! The crate models the kernel's address and page-number types, decodes and
//! dispatches trap causes, and drives the periodic timer.  Hardware access
//! (control registers, the firmware gateway, raw memory) stays with the
//! caller; this library makes every decision and states it in contracts.
//! Machine words are `u64`, the register width of the target processor.

pub mod address;
pub mod config;
pub mod context;
pub mod timer;
pub mod trap;
