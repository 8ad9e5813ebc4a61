use vstd::prelude::*;

verus! {

/// Why a sweep, or one capture of it, has no result.
#[derive(Clone, Copy, Debug, PartialEq, Eq, Structural)]
pub enum SweepError {
    /// The receiver could not be opened.
    HardwareOpen,
    /// The receiver refused its configuration or did not enter receive mode.
    HardwareConfigure,
    /// Receiving samples failed.
    Capture,
    /// The work is still under way: there is no result yet.
    Unfinished,
}

impl SweepError {
    /// Whether the error ends a sweep for good. `Unfinished` does not.
    pub fn is_fatal(&self) -> (fatal: bool)
        ensures
            fatal == !(*self == SweepError::Unfinished),
    {
        match self {
            SweepError::Unfinished => false,
            _ => true,
        }
    }
}

} // verus!
