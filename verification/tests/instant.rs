use tetra_scan::aggregator::{Detection, InstantEntry, InstantRecord};
use tetra_scan::analyzer::{Verdict, DEFAULT_THRESHOLD};
use tetra_scan::band::FrequencyBand;
use tetra_scan::error::SweepError;
use tetra_scan::instant::{InstantSweep, SweepAction};

fn run(
    band: FrequencyBand,
    threshold: u32,
    captures: &[Vec<u8>],
) -> (Vec<u64>, Result<Vec<InstantEntry>, SweepError>) {
    let mut sweep = InstantSweep::new(band, threshold);
    let mut visited = Vec::new();
    let mut next = 0;
    loop {
        match sweep.action() {
            SweepAction::Capture { frequency_hz } => {
                visited.push(frequency_hz);
                sweep.capture_ended(Ok(captures[next % captures.len()].clone()));
                next += 1;
            }
            SweepAction::Finish => break,
        }
    }
    (visited, sweep.finalize())
}

fn no_signal() -> Vec<InstantEntry> {
    vec![InstantEntry { id: 1, record: InstantRecord::NoSignal }]
}

#[test]
fn quiet_band_yields_the_single_no_signal_entry() {
    let captures: Vec<Vec<u8>> = vec![vec![0, 17, 255, 3], vec![255; 100], vec![1]];
    let (visited, result) = run(FrequencyBand::standard(), DEFAULT_THRESHOLD, &captures);
    assert_eq!(visited.len(), 41);
    assert_eq!(visited[0], 380_000_000);
    assert_eq!(visited[40], 420_000_000);
    let entries = result.unwrap();
    assert_eq!(entries, no_signal());
    assert_eq!(entries[0].key(), "1");
}

#[test]
fn captures_at_the_threshold_yield_no_signal() {
    let band = FrequencyBand::new(100, 130, 10).unwrap();
    let captures: Vec<Vec<u8>> = vec![vec![100], vec![99, 100, 1]];
    let (visited, result) = run(band, 40000, &captures);
    assert_eq!(visited, vec![100, 110, 120, 130]);
    assert_eq!(result, Ok(no_signal()));
}

#[test]
fn empty_captures_yield_no_signal() {
    let band = FrequencyBand::new(100, 130, 10).unwrap();
    let captures: Vec<Vec<u8>> = vec![vec![]];
    let (_, result) = run(band, 0, &captures);
    assert_eq!(result, Ok(no_signal()));
}

#[test]
fn an_empty_capture_is_no_failure() {
    let band = FrequencyBand::new(100, 110, 10).unwrap();
    let mut sweep = InstantSweep::new(band, 0);
    assert_eq!(sweep.capture_ended(Ok(vec![])), Some(Verdict::NoSamples));
    assert_eq!(sweep.action(), SweepAction::Capture { frequency_hz: 110 });
}

#[test]
fn detections_are_numbered_in_the_order_met() {
    let band = FrequencyBand::new(100, 140, 10).unwrap();
    let mut sweep = InstantSweep::new(band, 40000);
    assert_eq!(sweep.action(), SweepAction::Capture { frequency_hz: 100 });
    assert_eq!(
        sweep.capture_ended(Ok(vec![1, 2, 3])),
        Some(Verdict::BelowThreshold { strength: 9542 })
    );
    assert_eq!(sweep.action(), SweepAction::Capture { frequency_hz: 110 });
    assert_eq!(
        sweep.capture_ended(Ok(vec![7, 255, 9, 9])),
        Some(Verdict::Detected { strength: 48130 })
    );
    assert_eq!(sweep.action(), SweepAction::Capture { frequency_hz: 120 });
    assert_eq!(sweep.capture_ended(Ok(vec![])), Some(Verdict::NoSamples));
    assert_eq!(sweep.action(), SweepAction::Capture { frequency_hz: 130 });
    assert_eq!(
        sweep.capture_ended(Ok(vec![101, 100])),
        Some(Verdict::Detected { strength: 40086 })
    );
    assert_eq!(sweep.action(), SweepAction::Capture { frequency_hz: 140 });
    assert_eq!(
        sweep.capture_ended(Ok(vec![100])),
        Some(Verdict::BelowThreshold { strength: 40000 })
    );
    assert_eq!(sweep.action(), SweepAction::Finish);
    assert_eq!(
        sweep.finalize(),
        Ok(vec![
            InstantEntry {
                id: 1,
                record: InstantRecord::Detected(Detection {
                    frequency_hz: 110,
                    strength: 48130,
                    sample_count: 4,
                }),
            },
            InstantEntry {
                id: 2,
                record: InstantRecord::Detected(Detection {
                    frequency_hz: 130,
                    strength: 40086,
                    sample_count: 2,
                }),
            },
        ])
    );
}

#[test]
fn repeated_runs_agree() {
    let band = FrequencyBand::new(380_000_000, 385_000_000, 1_000_000).unwrap();
    let captures: Vec<Vec<u8>> =
        vec![vec![1, 200, 3], vec![], vec![255], vec![100, 100], vec![254, 0], vec![10]];
    let first = run(band, 45000, &captures);
    let second = run(band, 45000, &captures);
    assert_eq!(first, second);
    let entries = first.1.unwrap();
    let ids: Vec<u64> = entries.iter().map(|e| e.id).collect();
    assert_eq!(ids, vec![1, 2, 3]);
    let keys: Vec<String> = entries.iter().map(|e| e.key()).collect();
    assert_eq!(keys, vec!["1", "2", "3"]);
    assert_eq!(
        entries[0].record,
        InstantRecord::Detected(Detection {
            frequency_hz: 380_000_000,
            strength: 46020,
            sample_count: 3
        })
    );
    assert_eq!(
        entries[1].record,
        InstantRecord::Detected(Detection {
            frequency_hz: 382_000_000,
            strength: 48130,
            sample_count: 1
        })
    );
    assert_eq!(
        entries[2].record,
        InstantRecord::Detected(Detection {
            frequency_hz: 384_000_000,
            strength: 48096,
            sample_count: 2
        })
    );
}

#[test]
fn a_failed_capture_ends_the_pass_without_a_result() {
    let band = FrequencyBand::new(100, 140, 10).unwrap();
    let mut sweep = InstantSweep::new(band, 40000);
    sweep.capture_ended(Ok(vec![255]));
    assert_eq!(sweep.capture_ended(Err(SweepError::Capture)), None);
    assert_eq!(sweep.action(), SweepAction::Finish);
    assert_eq!(sweep.finalize(), Err(SweepError::Capture));
    assert_eq!(sweep.capture_ended(Ok(vec![255])), None);
    assert_eq!(sweep.capture_ended(Err(SweepError::HardwareOpen)), None);
    assert_eq!(sweep.finalize(), Err(SweepError::Capture));
}

#[test]
fn each_kind_of_failure_is_passed_on() {
    let band = FrequencyBand::new(100, 140, 10).unwrap();
    let mut sweep = InstantSweep::new(band, 40000);
    sweep.capture_ended(Err(SweepError::HardwareOpen));
    assert_eq!(sweep.finalize(), Err(SweepError::HardwareOpen));
    let mut sweep = InstantSweep::new(band, 40000);
    sweep.capture_ended(Err(SweepError::HardwareConfigure));
    assert_eq!(sweep.finalize(), Err(SweepError::HardwareConfigure));
}

#[test]
fn an_unfinished_capture_changes_nothing() {
    let band = FrequencyBand::new(100, 100, 10).unwrap();
    let mut sweep = InstantSweep::new(band, 40000);
    assert_eq!(sweep.capture_ended(Err(SweepError::Unfinished)), None);
    assert_eq!(sweep.action(), SweepAction::Capture { frequency_hz: 100 });
    assert_eq!(sweep.finalize(), Err(SweepError::Unfinished));
    sweep.capture_ended(Ok(vec![255]));
    assert_eq!(sweep.action(), SweepAction::Finish);
    assert!(sweep.finalize().is_ok());
}

#[test]
fn outcomes_after_the_pass_are_ignored() {
    let band = FrequencyBand::new(100, 100, 10).unwrap();
    let mut sweep = InstantSweep::new(band, 40000);
    sweep.capture_ended(Ok(vec![1]));
    assert_eq!(sweep.capture_ended(Ok(vec![255])), None);
    assert_eq!(sweep.capture_ended(Err(SweepError::Capture)), None);
    assert_eq!(sweep.finalize(), Ok(no_signal()));
}

#[test]
fn a_pass_over_an_empty_band_is_over_at_once() {
    let band = FrequencyBand::new(2, 1, 1).unwrap();
    let sweep = InstantSweep::new(band, 0);
    assert_eq!(sweep.action(), SweepAction::Finish);
    assert_eq!(sweep.finalize(), Ok(no_signal()));
}
