//! How much the processor tells about what it does.

use vstd::prelude::*;

verus! {

/// What kind of trace a processor produces.
#[allow(dead_code)]
#[derive(Clone, Copy, Debug, PartialEq, Eq, Structural)]
pub enum DebugMode {
    /// One line for each instruction, in the format that other emulators
    /// write.
    Emu,
    /// One line for each instruction with its operand.
    Info,
    /// Nothing.
    No,
}

impl DebugMode {
    /// The message as a line of the trace that other emulators write, if
    /// the trace is of that kind; nothing otherwise. The caller prints the
    /// line.
    pub fn emu_log(&self, message: String) -> (line: Option<String>)
        ensures
            line == (if *self == DebugMode::Emu {
                Some(message)
            } else {
                None
            }),
    {
        match self {
            DebugMode::Emu => Some(message),
            _ => None,
        }
    }
}

} // verus!
