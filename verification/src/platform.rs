//! The operating system family the application was built for. Capture and encoding backends
//! are chosen by it.
use vstd::prelude::*;

verus! {

/// The native media backend family of the running build.
#[derive(Debug, Clone, Copy, PartialEq, Eq, Structural)]
pub enum PlatformBackend {
    Macos,
    Windows,
    Linux,
    Unsupported,
}

impl PlatformBackend {
    /// Window targets can be captured on macOS and Windows only.
    pub open spec fn spec_window_sources_supported(self) -> bool {
        self == PlatformBackend::Macos || self == PlatformBackend::Windows
    }

    pub fn window_sources_supported(&self) -> (r: bool)
        ensures
            r == self.spec_window_sources_supported(),
    {
        match self {
            PlatformBackend::Macos | PlatformBackend::Windows => true,
            _ => false,
        }
    }
}

} // verus!
