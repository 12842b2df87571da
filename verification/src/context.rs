//! The register snapshot saved across one trap.

use vstd::prelude::*;

verus! {

/// The execution state frozen by the trap-entry stub and restored by the
/// trap-exit stub.  The stub stores the fields in this order — the 32
/// general-purpose registers, then the saved status word, then the saved
/// program counter — and reads them back the same way, so the order and the
/// field widths must not change.  A `Context` lives on the active stack for
/// the span of one trap and is handed to the dispatcher by exclusive
/// mutable reference.
#[derive(Clone, Copy, Debug, Eq, PartialEq)]
pub struct Context {
    /// General-purpose registers `x0` to `x31`.
    pub x: [u64; 32],
    /// The saved processor status word.
    pub sstatus: u64,
    /// The saved program counter: where execution resumes after the trap.
    pub sepc: u64,
}

} // verus!
