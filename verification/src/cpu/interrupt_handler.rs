//! What the processor is about to do when the current instruction ends.

use vstd::prelude::*;

verus! {

/// What the processor does next. The order of the variants is the order
/// of `<`: an interrupt request ranks below a non-maskable interrupt.
#[allow(clippy::upper_case_acronyms)]
#[derive(PartialEq, Eq, PartialOrd, Copy, Clone, Debug, Structural)]
pub enum InterruptState {
    /// Run the next instruction.
    NormalOperation,
    /// Serve an interrupt request.
    IRQ,
    /// Serve a non-maskable interrupt.
    NMI,
    /// Power has just come on: load the reset vector.
    Uninitialized,
    /// The reset sequence is running.
    Booting,
}

} // verus!
