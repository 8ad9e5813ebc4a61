use tetra_scan::config::{Config, ScanMode};

#[test]
fn instant_scan_selects_the_single_pass() {
    let config = Config { instant_scan: true, start_after_duration: 5, scan_duration: 60 };
    assert_eq!(config.mode(), ScanMode::Instant);
}

#[test]
fn otherwise_the_durations_are_passed_on() {
    let config = Config { instant_scan: false, start_after_duration: 5, scan_duration: 60 };
    assert_eq!(config.mode(), ScanMode::Scheduled { start_after_secs: 5, scan_secs: 60 });
    let config = Config { instant_scan: false, start_after_duration: 0, scan_duration: 0 };
    assert_eq!(config.mode(), ScanMode::Scheduled { start_after_secs: 0, scan_secs: 0 });
}
