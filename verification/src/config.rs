use vstd::prelude::*;

verus! {

/// The settings a run is started with. Durations are in whole seconds.
#[derive(Clone, Copy, Debug, PartialEq, Eq, Structural)]
pub struct Config {
    pub instant_scan: bool,
    pub start_after_duration: u64,
    pub scan_duration: u64,
}

/// The two ways to sweep the band. A run is in exactly one of them.
#[derive(Clone, Copy, Debug, PartialEq, Eq, Structural)]
pub enum ScanMode {
    /// One pass over the band.
    Instant,
    /// A countdown of `start_after_secs`, then passes over the band again and
    /// again until `scan_secs` have gone by.
    Scheduled { start_after_secs: u64, scan_secs: u64 },
}

impl Config {
    /// The mode that the settings ask for: the two durations count only
    /// when `instant_scan` is off.
    pub open spec fn mode_of(self) -> ScanMode {
        if self.instant_scan {
            ScanMode::Instant
        } else {
            ScanMode::Scheduled {
                start_after_secs: self.start_after_duration,
                scan_secs: self.scan_duration,
            }
        }
    }

    pub fn mode(&self) -> (mode: ScanMode)
        ensures
            mode == self.mode_of(),
    {
        if self.instant_scan {
            ScanMode::Instant
        } else {
            ScanMode::Scheduled {
                start_after_secs: self.start_after_duration,
                scan_secs: self.scan_duration,
            }
        }
    }
}

} // verus!
