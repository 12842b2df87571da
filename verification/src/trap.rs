//! Trap cause decoding and dispatch.
//!
//! A hardware trap suspends execution; the entry stub saves the register
//! file into a [`Context`] and calls [`handle_interrupt`] with the raw cause
//! and trap-value registers.  The dispatcher classifies the cause, adjusts
//! the context, and returns a [`Resolution`] that tells the caller what
//! remains to be done outside this library: print a diagnostic, re-arm the
//! timer, or abort.  The stub then restores the registers from the context
//! and resumes at the saved program counter.

use vstd::prelude::*;

use crate::config::{TICKS_PER_HEARTBEAT, TIMER_CLOCK_INTERVAL};
use crate::context::Context;
use crate::timer::Timer;

verus! {

/// The top bit of the cause register: set for an interrupt, clear for an
/// exception.
pub const INTERRUPT_BIT: u64 = 0x8000_0000_0000_0000;

/// Exception code of a breakpoint instruction.
pub const CODE_BREAKPOINT: u64 = 3;

/// Interrupt code of the supervisor timer.
pub const CODE_SUPERVISOR_TIMER: u64 = 5;

/// An exception sub-kind: the one this core handles, or any other code.
#[derive(Clone, Copy, Debug, Eq, PartialEq, Structural)]
pub enum Exception {
    /// A breakpoint instruction was executed.
    Breakpoint,
    /// Any other exception code; no generic recovery exists for it.
    Other(u64),
}

/// An interrupt sub-kind: the one this core handles, or any other code.
#[derive(Clone, Copy, Debug, Eq, PartialEq, Structural)]
pub enum Interrupt {
    /// The supervisor timer fired.
    SupervisorTimer,
    /// Any other interrupt code; no generic recovery exists for it.
    Other(u64),
}

/// A decoded trap cause.
#[derive(Clone, Copy, Debug, Eq, PartialEq, Structural)]
pub enum TrapCause {
    /// A synchronous exception, classified by its code.
    Exception(Exception),
    /// An asynchronous interrupt, classified by its code.
    Interrupt(Interrupt),
}

/// The meaning of a raw cause register value: the top bit tells interrupt
/// from exception, the remaining bits hold the code.
pub open spec fn spec_cause(raw: u64) -> TrapCause {
    if raw >= INTERRUPT_BIT {
        if raw - INTERRUPT_BIT == CODE_SUPERVISOR_TIMER {
            TrapCause::Interrupt(Interrupt::SupervisorTimer)
        } else {
            TrapCause::Interrupt(Interrupt::Other((raw - INTERRUPT_BIT) as u64))
        }
    } else {
        if raw == CODE_BREAKPOINT {
            TrapCause::Exception(Exception::Breakpoint)
        } else {
            TrapCause::Exception(Exception::Other(raw))
        }
    }
}

/// Decode the raw cause register.
pub fn decode_cause(raw: u64) -> (r: TrapCause)
    ensures
        r == spec_cause(raw),
{
    if raw >= INTERRUPT_BIT {
        let code = raw - INTERRUPT_BIT;
        if code == CODE_SUPERVISOR_TIMER {
            TrapCause::Interrupt(Interrupt::SupervisorTimer)
        } else {
            TrapCause::Interrupt(Interrupt::Other(code))
        }
    } else {
        if raw == CODE_BREAKPOINT {
            TrapCause::Exception(Exception::Breakpoint)
        } else {
            TrapCause::Exception(Exception::Other(raw))
        }
    }
}

/// What the caller must still do after a trap was dispatched.
#[derive(Clone, Copy, Debug, Eq, PartialEq, Structural)]
pub enum Resolution {
    /// A breakpoint at `at` was handled; report it, then resume.  The
    /// program counter already points past the trapping instruction.
    Breakpoint {
        /// The program counter at which the breakpoint trapped.
        at: u64,
    },
    /// A timer interrupt was counted; ask the firmware gateway for one
    /// timer interrupt at absolute time `deadline`, exactly once, then
    /// resume.  `heartbeat` asks for the periodic heartbeat diagnostic.
    Timer {
        /// The absolute hardware time of the next timer interrupt.
        deadline: u64,
        /// Whether this tick owes a heartbeat diagnostic.
        heartbeat: bool,
    },
    /// The cause is one this core does not handle: report it and abort.
    /// The caller must not return to the interrupted code.
    Fatal {
        /// The decoded cause of the trap.
        cause: TrapCause,
        /// The program counter at which the trap was taken.
        at: u64,
        /// The raw trap-value register.
        stval: u64,
    },
}

/// Width of the compressed breakpoint instruction encoding, which the
/// program counter must skip so that execution does not re-trap.
pub const BREAKPOINT_STEP: u64 = 2;

/// Handle a breakpoint exception: step the program counter past the
/// trapping instruction.  Only the program counter changes.
fn breakpoint(context: &mut Context) -> (r: Resolution)
    requires
        old(context).sepc + BREAKPOINT_STEP <= u64::MAX,
    ensures
        final(context).sepc == old(context).sepc + BREAKPOINT_STEP,
        final(context).x == old(context).x,
        final(context).sstatus == old(context).sstatus,
        r == (Resolution::Breakpoint { at: old(context).sepc }),
{
    let at = context.sepc;
    context.sepc = context.sepc + BREAKPOINT_STEP;
    Resolution::Breakpoint { at }
}

/// Handle a supervisor-timer interrupt: count the tick and demand the next
/// one.  The context is not touched.
fn supervisor_timer(timer: &mut Timer, now: u64) -> (r: Resolution)
    requires
        old(timer).ticks < u64::MAX,
        now + TIMER_CLOCK_INTERVAL <= u64::MAX,
    ensures
        final(timer).ticks == old(timer).ticks + 1,
        r == (Resolution::Timer {
            deadline: (now + TIMER_CLOCK_INTERVAL) as u64,
            heartbeat: final(timer).ticks % TICKS_PER_HEARTBEAT == 0,
        }),
{
    let (deadline, heartbeat) = timer.tick(now);
    Resolution::Timer { deadline, heartbeat }
}

/// Dispatch one trap.
///
/// The raw cause decides: a breakpoint exception advances the saved program
/// counter past the trapping instruction and touches nothing else; a
/// supervisor-timer interrupt counts one tick on `timer` and names the next
/// deadline, leaving the context alone; every other cause changes nothing
/// and resolves to [`Resolution::Fatal`], on which the caller must abort
/// instead of returning to the interrupted code.  `now` is the hardware
/// time counter read at trap entry; `stval` is the raw trap-value register,
/// reported on the fatal path.
pub fn handle_interrupt(
    context: &mut Context,
    timer: &mut Timer,
    scause: u64,
    stval: u64,
    now: u64,
) -> (r: Resolution)
    requires
        spec_cause(scause) == TrapCause::Exception(Exception::Breakpoint) ==> old(context).sepc
            + BREAKPOINT_STEP <= u64::MAX,
        spec_cause(scause) == TrapCause::Interrupt(Interrupt::SupervisorTimer) ==> old(
            timer,
        ).ticks < u64::MAX && now + TIMER_CLOCK_INTERVAL <= u64::MAX,
    ensures
        spec_cause(scause) == TrapCause::Exception(Exception::Breakpoint) ==> {
            &&& final(context).sepc == old(context).sepc + BREAKPOINT_STEP
            &&& final(context).x == old(context).x
            &&& final(context).sstatus == old(context).sstatus
            &&& *final(timer) == *old(timer)
            &&& r == (Resolution::Breakpoint { at: old(context).sepc })
        },
        spec_cause(scause) == TrapCause::Interrupt(Interrupt::SupervisorTimer) ==> {
            &&& *final(context) == *old(context)
            &&& final(timer).ticks == old(timer).ticks + 1
            &&& r == (Resolution::Timer {
                deadline: (now + TIMER_CLOCK_INTERVAL) as u64,
                heartbeat: ((old(timer).ticks + 1) as u64) % TICKS_PER_HEARTBEAT
                    == 0,
            })
        },
        spec_cause(scause) != TrapCause::Exception(Exception::Breakpoint) && spec_cause(scause)
            != TrapCause::Interrupt(Interrupt::SupervisorTimer) ==> {
            &&& *final(context) == *old(context)
            &&& *final(timer) == *old(timer)
            &&& r == (Resolution::Fatal {
                cause: spec_cause(scause),
                at: old(context).sepc,
                stval,
            })
        },
{
    let cause = decode_cause(scause);
    match cause {
        TrapCause::Exception(Exception::Breakpoint) => breakpoint(context),
        TrapCause::Interrupt(Interrupt::SupervisorTimer) => supervisor_timer(timer, now),
        _ => Resolution::Fatal { cause, at: context.sepc, stval },
    }
}

} // verus!
