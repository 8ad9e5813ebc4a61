use crate::aggregator::{instant_export, Detection, InstantAggregator, InstantEntry, InstantRecord};
use crate::analyzer::{assess, verdict_of, Verdict};
use crate::band::FrequencyBand;
use crate::capture::outcome_view;
use crate::error::SweepError;
use vstd::prelude::*;

verus! {

/// What the driver of a single pass is to do next.
#[derive(Clone, Copy, Debug, PartialEq, Eq, Structural)]
pub enum SweepAction {
    /// Capture one window on this frequency and report how it ended.
    Capture { frequency_hz: u64 },
    /// The pass is over: take the result.
    Finish,
}

/// A single pass as the contracts see it.
pub struct InstantSweepView {
    pub band: FrequencyBand,
    pub threshold: u32,
    /// The frequency whose capture is due; `None` once the band is walked.
    pub cursor: Option<u64>,
    pub detections: Seq<Detection>,
    /// The error that ended the pass early, if one did.
    pub failure: Option<SweepError>,
}

impl InstantSweepView {
    /// A pass that has not captured anything yet.
    pub open spec fn start(band: FrequencyBand, threshold: u32) -> InstantSweepView {
        InstantSweepView {
            band,
            threshold,
            cursor: band.first_of(),
            detections: Seq::empty(),
            failure: None,
        }
    }

    /// Whether the pass is over: the band is walked, or a capture failed.
    pub open spec fn is_over(self) -> bool {
        self.failure is Some || self.cursor is None
    }

    pub open spec fn action(self) -> SweepAction {
        if self.is_over() {
            SweepAction::Finish
        } else {
            SweepAction::Capture { frequency_hz: self.cursor->Some_0 }
        }
    }

    /// The pass after the capture that was due yielded `samples`: a peak
    /// strictly above the threshold adds a detection, anything else adds
    /// nothing, and the walk moves on. Once the pass is over nothing changes.
    pub open spec fn after_capture(self, samples: Seq<u8>) -> InstantSweepView {
        if self.is_over() {
            self
        } else {
            let frequency_hz = self.cursor->Some_0;
            InstantSweepView {
                cursor: self.band.next_of(frequency_hz),
                detections: match verdict_of(samples, self.threshold) {
                    Verdict::Detected { strength } => self.detections.push(
                        Detection { frequency_hz, strength, sample_count: samples.len() as usize },
                    ),
                    _ => self.detections,
                },
                ..self
            }
        }
    }

    /// The pass after the capture that was due failed: the pass is over and
    /// will have no result. `Unfinished` is no failure and changes nothing,
    /// nor does anything once the pass is over.
    pub open spec fn after_failure(self, error: SweepError) -> InstantSweepView {
        if self.is_over() || error == SweepError::Unfinished {
            self
        } else {
            InstantSweepView { failure: Some(error), ..self }
        }
    }

    pub open spec fn after_outcome(self, outcome: Result<Seq<u8>, SweepError>) -> InstantSweepView {
        match outcome {
            Ok(samples) => self.after_capture(samples),
            Err(error) => self.after_failure(error),
        }
    }

    /// The verdict that is handed back for an outcome: that on the samples,
    /// where a capture was due and it yielded samples.
    pub open spec fn verdict_on(self, outcome: Result<Seq<u8>, SweepError>) -> Option<Verdict> {
        match outcome {
            Ok(samples) => if self.is_over() {
                None
            } else {
                Some(verdict_of(samples, self.threshold))
            },
            Err(_) => None,
        }
    }

    /// What the pass yields: after a failure the error and nothing else,
    /// before the band is walked `Unfinished`, else the entries.
    pub open spec fn result(self) -> Result<Seq<InstantEntry>, SweepError> {
        match self.failure {
            Some(error) => Err(error),
            None => if self.cursor is Some {
                Err(SweepError::Unfinished)
            } else {
                Ok(instant_export(self.detections))
            },
        }
    }

    /// The pass after a run of captures that all yielded samples.
    pub open spec fn after_captures(self, captures: Seq<Seq<u8>>) -> InstantSweepView
        decreases captures.len(),
    {
        if captures.len() == 0 {
            self
        } else {
            self.after_captures(captures.drop_last()).after_capture(captures.last())
        }
    }
}

/// One pass over a band: it says which capture is due, takes in how each
/// capture ended, and hands out the result when the band is walked.
pub struct InstantSweep {
    band: FrequencyBand,
    threshold: u32,
    cursor: Option<u64>,
    aggregator: InstantAggregator,
    failure: Option<SweepError>,
}

impl View for InstantSweep {
    type V = InstantSweepView;

    closed spec fn view(&self) -> InstantSweepView {
        InstantSweepView {
            band: self.band,
            threshold: self.threshold,
            cursor: self.cursor,
            detections: self.aggregator@,
            failure: self.failure,
        }
    }
}

impl InstantSweep {
    pub fn new(band: FrequencyBand, threshold: u32) -> (sweep: InstantSweep)
        ensures
            sweep@ == InstantSweepView::start(band, threshold),
    {
        let cursor = band.first();
        InstantSweep { band, threshold, cursor, aggregator: InstantAggregator::new(), failure: None }
    }

    pub fn action(&self) -> (action: SweepAction)
        ensures
            action == self@.action(),
    {
        if self.failure.is_some() {
            return SweepAction::Finish;
        }
        match self.cursor {
            Some(frequency_hz) => SweepAction::Capture { frequency_hz },
            None => SweepAction::Finish,
        }
    }

    /// Takes in how the capture that was due ended. Hands back the verdict on
    /// the samples, or `None` where no samples were taken in.
    pub fn capture_ended(&mut self, outcome: Result<Vec<u8>, SweepError>) -> (verdict: Option<Verdict>)
        ensures
            final(self)@ == old(self)@.after_outcome(outcome_view(outcome)),
            verdict == old(self)@.verdict_on(outcome_view(outcome)),
    {
        if self.failure.is_some() {
            return None;
        }
        let frequency_hz: u64 = match self.cursor {
            Some(frequency_hz) => frequency_hz,
            None => {
                return None;
            },
        };
        match outcome {
            Ok(samples) => {
                let verdict = assess(samples.as_slice(), self.threshold);
                if let Verdict::Detected { strength } = verdict {
                    self.aggregator.record(
                        Detection { frequency_hz, strength, sample_count: samples.len() },
                    );
                }
                self.cursor = self.band.next_after(frequency_hz);
                Some(verdict)
            },
            Err(error) => {
                if error.is_fatal() {
                    self.failure = Some(error);
                }
                None
            },
        }
    }

    /// The result of the pass.
    pub fn finalize(&self) -> (result: Result<Vec<InstantEntry>, SweepError>)
        ensures
            result matches Ok(entries) ==> self@.result() == Ok::<Seq<InstantEntry>, SweepError>(
                entries@,
            ),
            result matches Err(error) ==> self@.result() == Err::<Seq<InstantEntry>, SweepError>(
                error,
            ),
    {
        match self.failure {
            Some(error) => Err(error),
            None => if self.cursor.is_some() {
                Err(SweepError::Unfinished)
            } else {
                Ok(self.aggregator.finalize())
            },
        }
    }
}

/// A capture without samples never adds a detection, whatever the threshold.
pub proof fn lemma_empty_capture_adds_nothing(sweep: InstantSweepView)
    ensures
        sweep.after_capture(Seq::empty()).detections == sweep.detections,
{
    crate::analyzer::lemma_empty_capture_is_silent(sweep.threshold);
}

/// A capture whose peak is at or below the threshold adds no detection.
pub proof fn lemma_quiet_capture_adds_nothing(sweep: InstantSweepView, samples: Seq<u8>)
    requires
        !(verdict_of(samples, sweep.threshold) is Detected),
    ensures
        sweep.after_capture(samples).detections == sweep.detections,
{
}

/// After `n` captures of a fresh pass, the capture that is due is for the
/// `n`-th frequency of the band, and the pass is over once the band has no
/// such frequency.
pub proof fn lemma_pass_follows_band(band: FrequencyBand, threshold: u32, captures: Seq<Seq<u8>>)
    requires
        band.wf(),
    ensures
        InstantSweepView::start(band, threshold).after_captures(captures).cursor
            == band.frequency_at(captures.len()),
        InstantSweepView::start(band, threshold).after_captures(captures).failure is None,
    decreases captures.len(),
{
    let start = InstantSweepView::start(band, threshold);
    if captures.len() == 0 {
        band.lemma_walk(0);
        assert(start.after_captures(captures) == start);
    } else {
        let front = captures.drop_last();
        let before = start.after_captures(front);
        lemma_pass_follows_band(band, threshold, front);
        lemma_settings_kept(start, front);
        band.lemma_walk(front.len());
        assert(front.len() + 1 == captures.len());
    }
}

/// The detections of a pass in one formula: capture number `k`, counted from
/// zero, is for the frequency `start + k * step`, and it adds a detection
/// exactly when the band reaches that far and the peak of the capture is
/// strictly above the threshold.
pub open spec fn pass_detections(
    band: FrequencyBand,
    threshold: u32,
    captures: Seq<Seq<u8>>,
) -> Seq<Detection>
    decreases captures.len(),
{
    if captures.len() == 0 {
        Seq::empty()
    } else {
        let earlier = pass_detections(band, threshold, captures.drop_last());
        let samples = captures.last();
        match (band.frequency_at((captures.len() - 1) as nat), verdict_of(samples, threshold)) {
            (Some(frequency_hz), Verdict::Detected { strength }) => earlier.push(
                Detection { frequency_hz, strength, sample_count: samples.len() as usize },
            ),
            _ => earlier,
        }
    }
}

/// A fresh pass that is fed captures holds exactly the detections of
/// `pass_detections`, in that order.
pub proof fn lemma_pass_detections(band: FrequencyBand, threshold: u32, captures: Seq<Seq<u8>>)
    requires
        band.wf(),
    ensures
        InstantSweepView::start(band, threshold).after_captures(captures).detections
            == pass_detections(band, threshold, captures),
    decreases captures.len(),
{
    let start = InstantSweepView::start(band, threshold);
    if captures.len() > 0 {
        let front = captures.drop_last();
        lemma_pass_detections(band, threshold, front);
        lemma_pass_follows_band(band, threshold, front);
        lemma_settings_kept(start, front);
    }
}

/// A pass in which no capture rises above the threshold records nothing; when
/// it has walked the band its result is the single entry `NoSignal` under 1.
pub proof fn lemma_quiet_pass_yields_no_signal(
    band: FrequencyBand,
    threshold: u32,
    captures: Seq<Seq<u8>>,
)
    requires
        forall|i: int|
            0 <= i < captures.len() ==> !(#[trigger] verdict_of(captures[i], threshold) is Detected),
    ensures
        InstantSweepView::start(band, threshold).after_captures(captures).detections.len() == 0,
        InstantSweepView::start(band, threshold).after_captures(captures).failure is None,
        InstantSweepView::start(band, threshold).after_captures(captures).cursor is None
            ==> InstantSweepView::start(band, threshold).after_captures(captures).result() == Ok::<
            Seq<InstantEntry>,
            SweepError,
        >(seq![InstantEntry { id: 1, record: InstantRecord::NoSignal }]),
    decreases captures.len(),
{
    if captures.len() > 0 {
        let front = captures.drop_last();
        assert forall|i: int| 0 <= i < front.len() implies !(#[trigger] verdict_of(
            front[i],
            threshold,
        ) is Detected) by {
            assert(front[i] == captures[i]);
        }
        lemma_quiet_pass_yields_no_signal(band, threshold, front);
        lemma_settings_kept(InstantSweepView::start(band, threshold), front);
        assert(!(verdict_of(captures[captures.len() - 1], threshold) is Detected));
    }
}

/// The result of a pass is decided by the band, the threshold and the
/// samples of its captures, in their order: two passes that agree on these
/// agree on the whole result. Its entries stand in the order in which the
/// detections were met and are numbered 1, 2, 3 and so on.
pub proof fn lemma_same_captures_same_result(
    band: FrequencyBand,
    threshold: u32,
    first: Seq<Seq<u8>>,
    second: Seq<Seq<u8>>,
)
    requires
        first =~= second,
        first.len() < u64::MAX,
    ensures
        InstantSweepView::start(band, threshold).after_captures(first).result()
            == InstantSweepView::start(band, threshold).after_captures(second).result(),
        InstantSweepView::start(band, threshold).after_captures(first).result() matches Ok(entries)
            ==> forall|i: int| 0 <= i < entries.len() ==> (#[trigger] entries[i]).id == i + 1,
{
    lemma_detections_bounded(InstantSweepView::start(band, threshold), first);
}

/// Captures change neither the band nor the threshold of a pass.
pub proof fn lemma_settings_kept(sweep: InstantSweepView, captures: Seq<Seq<u8>>)
    ensures
        sweep.after_captures(captures).band == sweep.band,
        sweep.after_captures(captures).threshold == sweep.threshold,
    decreases captures.len(),
{
    if captures.len() > 0 {
        lemma_settings_kept(sweep, captures.drop_last());
    }
}

proof fn lemma_detections_bounded(sweep: InstantSweepView, captures: Seq<Seq<u8>>)
    ensures
        sweep.after_captures(captures).detections.len() <= sweep.detections.len() + captures.len(),
    decreases captures.len(),
{
    if captures.len() > 0 {
        lemma_detections_bounded(sweep, captures.drop_last());
    }
}

} // verus!
