use vstd::prelude::*;

verus! {

/// Power estimates are fixed-point numbers: thousandths of the analyzer's own
/// unit, so `40_000` stands for 40.000.
pub const UNITS_PER_WHOLE: u32 = 1000;

/// A capture counts as a detection only when its peak is strictly above the
/// threshold. The default is 49.000.
pub const DEFAULT_THRESHOLD: u32 = 49000;

/// The largest estimate a single sample can reach (sample value 255).
pub const MAX_ESTIMATE: u32 = 48130;

/// Estimate of every sample value: twenty times the base-ten logarithm of the
/// value, in thousandths, rounded down. For a value `v >= 1` the entry `e` is
/// the integer with `10^e <= v^20000 < 10^(e + 1)`; the entry for 0 is 0.
pub const ESTIMATE_TABLE: [u32; 256] = [
    0, 0, 6020, 9542, 12041, 13979, 15563, 16901,
    18061, 19084, 20000, 20827, 21583, 22278, 22922, 23521,
    24082, 24608, 25105, 25575, 26020, 26444, 26848, 27234,
    27604, 27958, 28299, 28627, 28943, 29247, 29542, 29827,
    30102, 30370, 30629, 30881, 31126, 31364, 31595, 31821,
    32041, 32255, 32464, 32669, 32869, 33064, 33255, 33441,
    33624, 33803, 33979, 34151, 34320, 34485, 34647, 34807,
    34963, 35117, 35268, 35417, 35563, 35706, 35847, 35986,
    36123, 36258, 36390, 36521, 36650, 36776, 36901, 37025,
    37146, 37266, 37384, 37501, 37616, 37729, 37841, 37952,
    38061, 38169, 38276, 38381, 38485, 38588, 38689, 38790,
    38889, 38987, 39084, 39180, 39275, 39369, 39462, 39554,
    39645, 39735, 39824, 39912, 40000, 40086, 40172, 40256,
    40340, 40423, 40506, 40587, 40668, 40748, 40827, 40906,
    40984, 41061, 41138, 41213, 41289, 41363, 41437, 41510,
    41583, 41655, 41727, 41798, 41868, 41938, 42007, 42076,
    42144, 42211, 42278, 42345, 42411, 42477, 42542, 42606,
    42670, 42734, 42797, 42860, 42922, 42984, 43045, 43106,
    43167, 43227, 43287, 43346, 43405, 43463, 43521, 43579,
    43636, 43693, 43750, 43806, 43862, 43917, 43973, 44027,
    44082, 44136, 44190, 44243, 44296, 44349, 44402, 44454,
    44506, 44557, 44608, 44659, 44710, 44760, 44810, 44860,
    44910, 44959, 45008, 45057, 45105, 45153, 45201, 45249,
    45296, 45343, 45390, 45436, 45483, 45529, 45575, 45620,
    45666, 45711, 45756, 45800, 45845, 45889, 45933, 45977,
    46020, 46063, 46107, 46149, 46192, 46235, 46277, 46319,
    46361, 46402, 46444, 46485, 46526, 46567, 46608, 46648,
    46689, 46729, 46769, 46808, 46848, 46887, 46927, 46966,
    47004, 47043, 47082, 47120, 47158, 47196, 47234, 47272,
    47309, 47347, 47384, 47421, 47458, 47494, 47531, 47567,
    47604, 47640, 47676, 47712, 47747, 47783, 47818, 47853,
    47889, 47923, 47958, 47993, 48028, 48062, 48096, 48130,
];

/// The estimate that belongs to one raw sample.
pub open spec fn estimate_of(sample: u8) -> u32 {
    ESTIMATE_TABLE[sample as int]
}

/// The estimate sequence of a capture: one estimate per sample, in order.
pub open spec fn estimates_of(samples: Seq<u8>) -> Seq<u32> {
    Seq::new(samples.len(), |i: int| estimate_of(samples[i]))
}

/// The largest element of an estimate sequence, or `None` for an empty one.
pub open spec fn peak_of(estimates: Seq<u32>) -> Option<u32>
    decreases estimates.len(),
{
    if estimates.len() == 0 {
        None
    } else {
        let last = estimates.last();
        match peak_of(estimates.drop_last()) {
            Some(m) if m >= last => Some(m),
            _ => Some(last),
        }
    }
}

/// What one capture amounts to once it is analyzed and held against a threshold.
#[derive(Clone, Copy, Debug, PartialEq, Eq, Structural)]
pub enum Verdict {
    /// The capture held no samples, so there is no peak.
    NoSamples,
    /// The peak did not rise above the threshold.
    BelowThreshold { strength: u32 },
    /// The peak is strictly above the threshold.
    Detected { strength: u32 },
}

/// The verdict that a peak calls for: a detection only where there is a peak
/// and it is strictly above the threshold.
pub open spec fn verdict_for(peak: Option<u32>, threshold: u32) -> Verdict {
    match peak {
        None => Verdict::NoSamples,
        Some(p) => if p > threshold {
            Verdict::Detected { strength: p }
        } else {
            Verdict::BelowThreshold { strength: p }
        },
    }
}

/// The verdict on a capture: decided by the peak of its estimates alone.
pub open spec fn verdict_of(samples: Seq<u8>, threshold: u32) -> Verdict {
    verdict_for(peak_of(estimates_of(samples)), threshold)
}

pub fn estimate(sample: u8) -> (e: u32)
    ensures
        e == estimate_of(sample),
{
    ESTIMATE_TABLE[sample as usize]
}

/// Maps every raw sample to its estimate.
pub fn analyze(samples: &[u8]) -> (out: Vec<u32>)
    ensures
        out@.len() == samples@.len(),
        out@ == estimates_of(samples@),
{
    let mut out: Vec<u32> = Vec::new();
    let mut i: usize = 0;
    while i < samples.len()
        invariant
            i <= samples@.len(),
            out@.len() == i,
            forall|j: int| 0 <= j < i ==> out@[j] == estimate_of(samples@[j]),
        decreases samples@.len() - i,
    {
        out.push(estimate(samples[i]));
        i += 1;
    }
    assert(out@ =~= estimates_of(samples@));
    out
}

/// The peak of an estimate sequence.
pub fn peak(estimates: &[u32]) -> (p: Option<u32>)
    ensures
        p == peak_of(estimates@),
        p is None <==> estimates@.len() == 0,
        p matches Some(m) ==> estimates@.contains(m) && forall|i: int|
            0 <= i < estimates@.len() ==> estimates@[i] <= m,
{
    let mut best: Option<u32> = None;
    let mut i: usize = 0;
    while i < estimates.len()
        invariant
            i <= estimates@.len(),
            best == peak_of(estimates@.take(i as int)),
        decreases estimates@.len() - i,
    {
        let e = estimates[i];
        proof {
            let next = estimates@.take(i + 1);
            assert(next.drop_last() =~= estimates@.take(i as int));
            assert(next.last() == e);
        }
        best = match best {
            Some(m) if m >= e => Some(m),
            _ => Some(e),
        };
        i += 1;
    }
    proof {
        assert(estimates@.take(i as int) =~= estimates@);
        lemma_peak_is_maximum(estimates@);
    }
    best
}

/// Holds a peak against `threshold`.
pub fn judge(peak: Option<u32>, threshold: u32) -> (v: Verdict)
    ensures
        v == verdict_for(peak, threshold),
{
    match peak {
        None => Verdict::NoSamples,
        Some(p) => if p > threshold {
            Verdict::Detected { strength: p }
        } else {
            Verdict::BelowThreshold { strength: p }
        },
    }
}

/// Analyzes a capture and holds its peak against `threshold`.
pub fn assess(samples: &[u8], threshold: u32) -> (v: Verdict)
    ensures
        v == verdict_of(samples@, threshold),
{
    let estimates = analyze(samples);
    judge(peak(estimates.as_slice()), threshold)
}

/// The peak is absent exactly for the empty sequence; otherwise it occurs in
/// the sequence and no element is larger.
pub proof fn lemma_peak_is_maximum(estimates: Seq<u32>)
    ensures
        peak_of(estimates) is None <==> estimates.len() == 0,
        peak_of(estimates) matches Some(m) ==> estimates.contains(m) && forall|i: int|
            0 <= i < estimates.len() ==> estimates[i] <= m,
    decreases estimates.len(),
{
    if estimates.len() > 0 {
        let front = estimates.drop_last();
        lemma_peak_is_maximum(front);
        let m = peak_of(estimates)->Some_0;
        match peak_of(front) {
            Some(f) => {
                let k = choose|k: int| 0 <= k < front.len() && front[k] == f;
                assert(estimates[k] == f);
            },
            None => {},
        }
        assert(estimates[estimates.len() - 1] == estimates.last());
        assert forall|i: int| 0 <= i < estimates.len() implies estimates[i] <= m by {
            if i < front.len() {
                assert(front[i] == estimates[i]);
            }
        }
    }
}

/// An empty capture has an empty estimate sequence, no peak, and is never a
/// detection, whatever the threshold.
pub proof fn lemma_empty_capture_is_silent(threshold: u32)
    ensures
        estimates_of(Seq::<u8>::empty()) == Seq::<u32>::empty(),
        peak_of(Seq::<u32>::empty()) is None,
        verdict_of(Seq::<u8>::empty(), threshold) == Verdict::NoSamples,
{
    assert(estimates_of(Seq::<u8>::empty()) =~= Seq::<u32>::empty());
}

/// A peak is a detection exactly when it is strictly above the threshold: a
/// peak equal to the threshold does not count, and neither does a missing one.
pub proof fn lemma_threshold_is_strict(peak: Option<u32>, threshold: u32)
    ensures
        verdict_for(peak, threshold) is Detected <==> (peak matches Some(p) && p > threshold),
        verdict_for(Some(threshold), threshold) == (Verdict::BelowThreshold { strength: threshold }),
        verdict_for(None, threshold) == Verdict::NoSamples,
{
}

/// Estimates never fall when the sample grows, and none exceeds `MAX_ESTIMATE`.
pub proof fn lemma_estimate_monotone(a: u8, b: u8)
    requires
        a <= b,
    ensures
        estimate_of(a) <= estimate_of(b) <= MAX_ESTIMATE,
{
}

/// With one byte per sample the estimate tops out at 48.130, under the default
/// threshold of 49.000: at that threshold no capture is a detection. Detections
/// need a lower threshold.
pub proof fn lemma_default_threshold_out_of_reach(samples: Seq<u8>)
    ensures
        !(verdict_of(samples, DEFAULT_THRESHOLD) is Detected),
{
    let estimates = estimates_of(samples);
    lemma_peak_is_maximum(estimates);
    if let Some(m) = peak_of(estimates) {
        let k = choose|k: int| 0 <= k < estimates.len() && estimates[k] == m;
        lemma_estimate_monotone(samples[k], 255);
    }
}

} // verus!
