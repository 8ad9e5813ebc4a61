use tetra_scan::analyzer::{
    analyze, assess, estimate, judge, peak, Verdict, DEFAULT_THRESHOLD, MAX_ESTIMATE,
    UNITS_PER_WHOLE,
};

#[test]
fn analyze_keeps_the_length() {
    let samples: Vec<u8> = vec![0, 1, 2, 10, 100, 255, 17];
    assert_eq!(analyze(&samples).len(), samples.len());
    let long: Vec<u8> = vec![7; 5000];
    assert_eq!(analyze(&long).len(), 5000);
}

#[test]
fn analyze_of_nothing_is_nothing() {
    let samples: Vec<u8> = Vec::new();
    assert_eq!(analyze(&samples), Vec::<u32>::new());
}

#[test]
fn analyze_of_zero_is_zero() {
    assert_eq!(analyze(&[0]), vec![0]);
}

#[test]
fn analyze_of_one_hundred_is_forty() {
    assert_eq!(analyze(&[100]), vec![40000]);
    assert_eq!(UNITS_PER_WHOLE, 1000);
}

#[test]
fn analyze_maps_each_sample_in_order() {
    assert_eq!(analyze(&[1, 2, 10, 255, 0, 3]), vec![0, 6020, 20000, 48130, 0, 9542]);
}

#[test]
fn estimate_is_twenty_times_the_logarithm_in_thousandths() {
    assert_eq!(estimate(0), 0);
    for v in 1..=255u8 {
        let exact = 20.0 * (v as f64).log10() * 1000.0;
        let e = estimate(v) as f64;
        assert!(e <= exact + 1e-6, "estimate of {} is above the logarithm", v);
        assert!(exact < e + 1.0 + 1e-6, "estimate of {} is a unit or more too low", v);
    }
}

#[test]
fn estimate_never_falls_and_stays_under_the_maximum() {
    for v in 0..255u8 {
        assert!(estimate(v) <= estimate(v + 1));
    }
    assert_eq!(estimate(255), MAX_ESTIMATE);
    assert_eq!(MAX_ESTIMATE, 48130);
}

#[test]
fn peak_of_nothing_is_none() {
    assert_eq!(peak(&[]), None);
}

#[test]
fn peak_is_the_largest_estimate() {
    assert_eq!(peak(&[5]), Some(5));
    assert_eq!(peak(&[1, 9, 3]), Some(9));
    assert_eq!(peak(&[9, 1, 9]), Some(9));
    assert_eq!(peak(&[0, 0]), Some(0));
    assert_eq!(peak(&[3, 4, u32::MAX, 2]), Some(u32::MAX));
}

#[test]
fn peak_at_the_threshold_does_not_qualify() {
    assert_eq!(DEFAULT_THRESHOLD, 49000);
    assert_eq!(
        judge(Some(49000), DEFAULT_THRESHOLD),
        Verdict::BelowThreshold { strength: 49000 }
    );
    assert_eq!(judge(Some(49001), DEFAULT_THRESHOLD), Verdict::Detected { strength: 49001 });
    assert_eq!(
        judge(Some(48999), DEFAULT_THRESHOLD),
        Verdict::BelowThreshold { strength: 48999 }
    );
    assert_eq!(judge(None, DEFAULT_THRESHOLD), Verdict::NoSamples);
    assert_eq!(judge(None, 0), Verdict::NoSamples);
}

#[test]
fn assess_holds_the_peak_against_the_threshold() {
    assert_eq!(assess(&[3, 100, 7], 40000), Verdict::BelowThreshold { strength: 40000 });
    assert_eq!(assess(&[3, 100, 7], 39999), Verdict::Detected { strength: 40000 });
    assert_eq!(assess(&[3, 101, 7], 40000), Verdict::Detected { strength: 40086 });
    assert_eq!(assess(&[0, 0], 0), Verdict::BelowThreshold { strength: 0 });
}

#[test]
fn empty_capture_is_never_a_detection() {
    assert_eq!(assess(&[], 0), Verdict::NoSamples);
    assert_eq!(assess(&[], DEFAULT_THRESHOLD), Verdict::NoSamples);
}

#[test]
fn no_byte_reaches_the_default_threshold() {
    let all: Vec<u8> = (0..=255u8).collect();
    assert_eq!(
        assess(&all, DEFAULT_THRESHOLD),
        Verdict::BelowThreshold { strength: MAX_ESTIMATE }
    );
}
