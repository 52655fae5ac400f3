//! The failures of subscriber assembly. Both reflect an integration defect
//! of the host, not a runtime condition: callers are expected to fail fast
//! on them rather than proceed with a degraded sink.

use vstd::prelude::*;

verus! {

/// Why the global subscriber could not be assembled and installed.
#[derive(Clone, Copy, Debug, PartialEq, Eq, Structural)]
pub enum LogError {
    /// Neither the override filter expression nor the computed default one
    /// could be parsed; there is no sensible degraded filtering mode.
    InvalidFilter,
    /// A global subscriber was already installed in this process; the first
    /// one stays in force and the host must disable the duplicate
    /// installation point.
    AlreadyInstalled,
}

impl LogError {
    /// The diagnostic for this failure, naming the precondition the host
    /// violated and what it must change.
    pub open spec fn spec_message(self) -> Seq<char> {
        match self {
            LogError::InvalidFilter => "neither the filter override nor the computed default filter expression could be parsed: fix the filter syntax"@,
            LogError::AlreadyInstalled => "a global tracing subscriber was already set: disable the duplicate log-plugin installation"@,
        }
    }

    /// Returns the diagnostic for this failure.
    pub fn message(self) -> (r: &'static str)
        ensures
            r@ == self.spec_message(),
    {
        match self {
            LogError::InvalidFilter => "neither the filter override nor the computed default filter expression could be parsed: fix the filter syntax",
            LogError::AlreadyInstalled => "a global tracing subscriber was already set: disable the duplicate log-plugin installation",
        }
    }
}

} // verus!
