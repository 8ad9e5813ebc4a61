use tetra_scan::aggregator::{
    Detection, InstantAggregator, InstantEntry, InstantRecord, ScheduledAggregator, ScheduledEntry,
};

fn detection(frequency_hz: u64, strength: u32, sample_count: usize) -> Detection {
    Detection { frequency_hz, strength, sample_count }
}

#[test]
fn instant_without_detections_yields_the_single_no_signal_entry() {
    let aggregator = InstantAggregator::new();
    assert_eq!(aggregator.len(), 0);
    let entries = aggregator.finalize();
    assert_eq!(entries, vec![InstantEntry { id: 1, record: InstantRecord::NoSignal }]);
    assert_eq!(entries[0].key(), "1");
}

#[test]
fn instant_numbers_detections_from_one_in_the_order_met() {
    let mut aggregator = InstantAggregator::new();
    aggregator.record(detection(400_000_000, 50000, 10));
    aggregator.record(detection(390_000_000, 51000, 20));
    aggregator.record(detection(410_000_000, 49500, 30));
    assert_eq!(aggregator.len(), 3);
    let entries = aggregator.finalize();
    assert_eq!(
        entries,
        vec![
            InstantEntry { id: 1, record: InstantRecord::Detected(detection(400_000_000, 50000, 10)) },
            InstantEntry { id: 2, record: InstantRecord::Detected(detection(390_000_000, 51000, 20)) },
            InstantEntry { id: 3, record: InstantRecord::Detected(detection(410_000_000, 49500, 30)) },
        ]
    );
    let keys: Vec<String> = entries.iter().map(|e| e.key()).collect();
    assert_eq!(keys, vec!["1", "2", "3"]);
}

#[test]
fn instant_never_merges() {
    let mut aggregator = InstantAggregator::new();
    aggregator.record(detection(400_000_000, 50000, 10));
    aggregator.record(detection(400_000_000, 50000, 10));
    let entries = aggregator.finalize();
    assert_eq!(entries.len(), 2);
    assert_eq!(entries[0].id, 1);
    assert_eq!(entries[1].id, 2);
    assert_eq!(entries[0].record, entries[1].record);
}

#[test]
fn instant_finalize_can_be_repeated() {
    let mut aggregator = InstantAggregator::new();
    aggregator.record(detection(1, 2, 3));
    assert_eq!(aggregator.finalize(), aggregator.finalize());
}

#[test]
fn scheduled_without_detections_yields_nothing() {
    let aggregator = ScheduledAggregator::new();
    assert_eq!(aggregator.len(), 0);
    assert_eq!(aggregator.finalize(), Vec::<ScheduledEntry>::new());
}

#[test]
fn scheduled_first_detection_creates_a_record() {
    let mut aggregator = ScheduledAggregator::new();
    aggregator.record(detection(400_000_000, 50000, 10), 4);
    assert_eq!(
        aggregator.finalize(),
        vec![ScheduledEntry {
            id: 0,
            frequency_hz: 400_000_000,
            strength: 50000,
            sample_count: 10,
            durations: "4-5".to_string(),
        }]
    );
}

#[test]
fn scheduled_detections_at_two_and_seven_seconds() {
    let mut aggregator = ScheduledAggregator::new();
    aggregator.record(detection(400_000_000, 52000, 1000), 2);
    aggregator.record(detection(400_000_000, 50500, 900), 7);
    let entries = aggregator.finalize();
    assert_eq!(entries.len(), 1);
    assert_eq!(entries[0].durations, "2-3,7-8");
    assert_eq!(entries[0].strength, 50500);
    assert_eq!(entries[0].sample_count, 900);
    assert_eq!(entries[0].frequency_hz, 400_000_000);
    assert_eq!(entries[0].id, 0);
    assert_eq!(entries[0].key(), "0");
}

#[test]
fn scheduled_keeps_the_latest_values_not_the_largest() {
    let mut aggregator = ScheduledAggregator::new();
    aggregator.record(detection(5, 60000, 70), 0);
    aggregator.record(detection(5, 49001, 3), 1);
    let entries = aggregator.finalize();
    assert_eq!(entries[0].strength, 49001);
    assert_eq!(entries[0].sample_count, 3);
}

#[test]
fn scheduled_numbers_frequencies_in_the_order_first_seen() {
    let mut aggregator = ScheduledAggregator::new();
    aggregator.record(detection(410, 50000, 1), 0);
    aggregator.record(detection(390, 50001, 2), 1);
    aggregator.record(detection(400, 50002, 3), 2);
    aggregator.record(detection(390, 50003, 4), 3);
    aggregator.record(detection(410, 50004, 5), 4);
    assert_eq!(aggregator.len(), 3);
    let entries = aggregator.finalize();
    assert_eq!(
        entries,
        vec![
            ScheduledEntry {
                id: 0,
                frequency_hz: 410,
                strength: 50004,
                sample_count: 5,
                durations: "0-1,4-5".to_string(),
            },
            ScheduledEntry {
                id: 1,
                frequency_hz: 390,
                strength: 50003,
                sample_count: 4,
                durations: "1-2,3-4".to_string(),
            },
            ScheduledEntry {
                id: 2,
                frequency_hz: 400,
                strength: 50002,
                sample_count: 3,
                durations: "2-3".to_string(),
            },
        ]
    );
    let keys: Vec<String> = entries.iter().map(|e| e.key()).collect();
    assert_eq!(keys, vec!["0", "1", "2"]);
}

#[test]
fn scheduled_windows_are_not_merged_or_dropped() {
    let mut aggregator = ScheduledAggregator::new();
    aggregator.record(detection(5, 50000, 1), 3);
    aggregator.record(detection(5, 50000, 1), 4);
    aggregator.record(detection(5, 50000, 1), 4);
    aggregator.record(detection(5, 50000, 1), 1);
    let entries = aggregator.finalize();
    assert_eq!(entries.len(), 1);
    assert_eq!(entries[0].durations, "3-4,4-5,4-5,1-2");
}

#[test]
fn scheduled_many_frequencies() {
    let mut aggregator = ScheduledAggregator::new();
    for round in 0..3u64 {
        for k in 0..50u64 {
            aggregator.record(detection(1000 + k, 50000 + k as u32, round as usize), round * 50 + k);
        }
    }
    let entries = aggregator.finalize();
    assert_eq!(entries.len(), 50);
    for (i, entry) in entries.iter().enumerate() {
        let k = i as u64;
        assert_eq!(entry.id, k);
        assert_eq!(entry.frequency_hz, 1000 + k);
        assert_eq!(entry.strength, 50000 + k as u32);
        assert_eq!(entry.sample_count, 2);
        assert_eq!(
            entry.durations,
            format!("{}-{},{}-{},{}-{}", k, k + 1, 50 + k, 51 + k, 100 + k, 101 + k)
        );
    }
    assert_eq!(entries[12].key(), "12");
}

#[test]
fn scheduled_window_at_the_largest_second() {
    let mut aggregator = ScheduledAggregator::new();
    aggregator.record(detection(5, 50000, 1), u64::MAX);
    let entries = aggregator.finalize();
    assert_eq!(entries[0].durations, "18446744073709551615-18446744073709551616");
}
