use vstd::prelude::*;

verus! {

/// How a swap chain presents its images.
#[derive(Copy, Clone, PartialEq, Eq, Debug, Structural)]
pub enum PresentMode {
    /// Wait for the vertical blank.
    Vsync,
    /// Present as soon as possible.
    NoVsync,
}

impl Default for PresentMode {
    fn default() -> (m: PresentMode)
        ensures
            m == PresentMode::Vsync,
    {
        PresentMode::Vsync
    }
}

} // verus!
