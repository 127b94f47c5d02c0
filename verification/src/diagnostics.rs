//! How seriously a reported condition is to be taken.
//!
//! The engine only reports conditions; whoever drives it decides what follows.
//! That decision hangs on one setting, held in a value that the driver owns.

use vstd::prelude::*;

verus! {

/// The settings that the driver of the machine runs under.
#[derive(Copy, Clone, Debug, PartialEq, Eq, Structural)]
pub struct GlobalFlags {
    /// Whether a reported condition ends the run.
    pub is_strict: bool,
}

/// What a reported condition amounts to.
#[derive(Copy, Clone, Debug, PartialEq, Eq, Structural)]
pub enum Severity {
    /// The condition is logged and the run goes on.
    Warning,
    /// The condition ends the run.
    Fatal,
}

impl GlobalFlags {
    /// What a reported condition amounts to under these settings.
    pub open spec fn spec_severity(self) -> Severity {
        if self.is_strict {
            Severity::Fatal
        } else {
            Severity::Warning
        }
    }

    /// Tells what a reported condition amounts to under these settings: fatal
    /// when strict, otherwise a warning.
    pub fn severity(&self) -> (severity: Severity)
        ensures
            severity == self.spec_severity(),
    {
        if self.is_strict {
            Severity::Fatal
        } else {
            Severity::Warning
        }
    }
}

impl Default for GlobalFlags {
    /// Lenient settings.
    fn default() -> (flags: GlobalFlags)
        ensures
            !flags.is_strict,
    {
        GlobalFlags { is_strict: false }
    }
}

} // verus!
