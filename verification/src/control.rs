//! The divergent control transfers of the firmware, modelled as values.
//!
//! Each routine of the boot chain ends in a transfer that never returns: a
//! jump into the application, a fail-stop wait loop, or the idle wait between
//! interrupts. Returning the transfer as a value keeps visible that it is a
//! jump, not a call — no stack frame is assumed valid after it.

use vstd::prelude::*;

verus! {

/// Where execution goes when a routine ends.
#[derive(Clone, Copy, Debug, PartialEq, Eq, Structural)]
pub enum Divergence {
    /// Transfer to the code at `addr`, with the active stack pointer loaded
    /// from `stack_pointer` first; the boot routine's handoff.
    Jump { addr: u32, stack_pointer: u32 },
    /// Transfer to the application entry point; the startup routine's handoff.
    EnterMain,
    /// Fail-stop: a wait-for-interrupt loop that is never left.
    Halt,
    /// Idle between interrupts: a wait-for-interrupt loop left only when an
    /// interrupt preempts it.
    Idle,
}

} // verus!
