//! Exit codes understood by an emulator's debug-exit device.

use vstd::prelude::*;

verus! {

/// Outcome a program reports when it asks the emulator to shut it down.
#[derive(Clone, Copy, PartialEq, Eq, Structural, Debug)]
pub enum QemuExitCode {
    Success,
    Failed,
}

/// The value written to the debug-exit port for each outcome.
pub open spec fn qemu_exit_value(c: QemuExitCode) -> u32 {
    match c {
        QemuExitCode::Success => 0x10,
        QemuExitCode::Failed => 0x11,
    }
}

impl QemuExitCode {
    /// The value written to the debug-exit port for this outcome.
    pub fn code(self) -> (r: u32)
        ensures
            r == qemu_exit_value(self),
    {
        match self {
            QemuExitCode::Success => 0x10,
            QemuExitCode::Failed => 0x11,
        }
    }
}

} // verus!
