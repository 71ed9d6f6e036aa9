//! The operating systems the shell runs on, and what each of them offers.

use vstd::prelude::*;

verus! {

/// The operating system that the process runs on. The host picks the value
/// once, when it is built.
#[derive(Clone, Copy, Debug, PartialEq, Eq, Structural)]
pub enum Platform {
    Windows,
    Linux,
    MacOs,
    Other,
}

impl Platform {
    /// The system has a foreground window that a process can read and set.
    pub open spec fn has_foreground_window(self) -> bool {
        self == Platform::Windows
    }

    /// More than one windowing backend can be active on the system.
    pub open spec fn has_display_servers(self) -> bool {
        self == Platform::Linux
    }

    /// Whether the foreground window can be captured and restored here.
    pub fn tracks_foreground(&self) -> (tracks: bool)
        ensures
            tracks == self.has_foreground_window(),
    {
        match self {
            Platform::Windows => true,
            _ => false,
        }
    }

    /// Whether the windowing backend has to be detected here.
    pub fn detects_display_server(&self) -> (detects: bool)
        ensures
            detects == self.has_display_servers(),
    {
        match self {
            Platform::Linux => true,
            _ => false,
        }
    }
}

} // verus!
