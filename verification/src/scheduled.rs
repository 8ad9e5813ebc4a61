use crate::aggregator::{
    position_of, scheduled_entry, scheduled_record, well_formed, Detection, ScheduledAggregator,
    ScheduledEntry, ScheduledEntryView, ScheduledRecord,
};
use crate::analyzer::{assess, verdict_of, Verdict};
use crate::band::FrequencyBand;
use crate::capture::outcome_view;
use crate::error::SweepError;
use vstd::prelude::*;

verus! {

/// Where a repeating sweep stands.
#[derive(Clone, Copy, Debug, PartialEq, Eq, Structural)]
pub enum Phase {
    /// Before the sweep: this many seconds are still to be waited.
    Countdown { remaining_secs: u64 },
    /// Between two passes: the time is checked before a new pass begins.
    PassStart,
    /// Within a pass: the time is checked before this frequency is captured.
    Walking { frequency_hz: u64 },
    /// A capture on this frequency is under way; its window began
    /// `started_at` whole seconds into the sweep.
    Capturing { frequency_hz: u64, started_at: u64 },
    /// The time is used up.
    Finished,
    /// A capture failed: the sweep is over and has no result.
    Failed(SweepError),
}

/// What the driver of a repeating sweep is to do next.
#[derive(Clone, Copy, Debug, PartialEq, Eq, Structural)]
pub enum ScheduledAction {
    /// Announce that the sweep starts in `remaining_secs` seconds and wait
    /// one second.
    Wait { remaining_secs: u64 },
    /// Start measuring time: the sweep begins now.
    Begin,
    /// Nothing to do but read the clock again.
    Continue,
    /// Capture one window on this frequency and report how it ended.
    Capture { frequency_hz: u64 },
    /// The sweep is over: take the result.
    Finish,
}

/// A repeating sweep as the contracts see it.
pub struct ScheduledSweepView {
    pub band: FrequencyBand,
    pub threshold: u32,
    /// The time the sweep may take, in seconds from its beginning.
    pub scan_secs: u64,
    pub phase: Phase,
    pub records: Seq<ScheduledRecord>,
}

impl ScheduledSweepView {
    /// A sweep before its countdown.
    pub open spec fn start(
        band: FrequencyBand,
        threshold: u32,
        start_after_secs: u64,
        scan_secs: u64,
    ) -> ScheduledSweepView {
        ScheduledSweepView {
            band,
            threshold,
            scan_secs,
            phase: Phase::Countdown { remaining_secs: start_after_secs },
            records: Seq::empty(),
        }
    }

    /// No frequency has two records, every record has a window, and every
    /// window began before the time was used up.
    pub open spec fn wf(self) -> bool {
        &&& well_formed(self.records)
        &&& forall|i: int, j: int|
            0 <= i < self.records.len() && 0 <= j < self.records[i].windows.len()
                ==> #[trigger] self.records[i].windows[j] < self.scan_secs
        &&& self.phase matches Phase::Capturing { started_at, .. } ==> started_at < self.scan_secs
    }

    /// The phase after the clock was read at `elapsed_secs` whole seconds
    /// into the sweep. The countdown takes no notice of the reading.
    pub open spec fn phase_after_tick(self, elapsed_secs: u64) -> Phase {
        match self.phase {
            Phase::Countdown { remaining_secs } => if remaining_secs > 0 {
                Phase::Countdown { remaining_secs: (remaining_secs - 1) as u64 }
            } else {
                Phase::PassStart
            },
            Phase::PassStart => if elapsed_secs >= self.scan_secs {
                Phase::Finished
            } else {
                match self.band.first_of() {
                    Some(frequency_hz) => Phase::Walking { frequency_hz },
                    None => Phase::PassStart,
                }
            },
            Phase::Walking { frequency_hz } => if elapsed_secs >= self.scan_secs {
                Phase::PassStart
            } else {
                Phase::Capturing { frequency_hz, started_at: elapsed_secs }
            },
            Phase::Capturing { .. } => self.phase,
            Phase::Finished => self.phase,
            Phase::Failed(_) => self.phase,
        }
    }

    /// What the driver is told when the clock was read at `elapsed_secs`.
    pub open spec fn action_on_tick(self, elapsed_secs: u64) -> ScheduledAction {
        match self.phase {
            Phase::Countdown { remaining_secs } => if remaining_secs > 0 {
                ScheduledAction::Wait { remaining_secs }
            } else {
                ScheduledAction::Begin
            },
            Phase::PassStart => if elapsed_secs >= self.scan_secs {
                ScheduledAction::Finish
            } else {
                ScheduledAction::Continue
            },
            Phase::Walking { frequency_hz } => if elapsed_secs >= self.scan_secs {
                ScheduledAction::Continue
            } else {
                ScheduledAction::Capture { frequency_hz }
            },
            Phase::Capturing { frequency_hz, .. } => ScheduledAction::Capture { frequency_hz },
            Phase::Finished => ScheduledAction::Finish,
            Phase::Failed(_) => ScheduledAction::Finish,
        }
    }

    pub open spec fn after_tick(self, elapsed_secs: u64) -> ScheduledSweepView {
        ScheduledSweepView { phase: self.phase_after_tick(elapsed_secs), ..self }
    }

    /// The sweep after the capture under way yielded `samples`. A peak
    /// strictly above the threshold is recorded with the second at which the
    /// window began; anything else records nothing. The walk moves on to the
    /// next frequency, or to the check before a new pass. Where no capture is
    /// under way nothing changes.
    pub open spec fn after_capture(self, samples: Seq<u8>) -> ScheduledSweepView {
        match self.phase {
            Phase::Capturing { frequency_hz, started_at } => ScheduledSweepView {
                phase: match self.band.next_of(frequency_hz) {
                    Some(next) => Phase::Walking { frequency_hz: next },
                    None => Phase::PassStart,
                },
                records: match verdict_of(samples, self.threshold) {
                    Verdict::Detected { strength } => scheduled_record(
                        self.records,
                        Detection { frequency_hz, strength, sample_count: samples.len() as usize },
                        started_at,
                    ),
                    _ => self.records,
                },
                ..self
            },
            _ => self,
        }
    }

    /// The sweep after the capture under way failed: the sweep is over and
    /// will have no result. `Unfinished` is no failure and changes nothing,
    /// nor does anything where no capture is under way.
    pub open spec fn after_failure(self, error: SweepError) -> ScheduledSweepView {
        if self.phase is Capturing && error != SweepError::Unfinished {
            ScheduledSweepView { phase: Phase::Failed(error), ..self }
        } else {
            self
        }
    }

    pub open spec fn after_outcome(self, outcome: Result<Seq<u8>, SweepError>) -> ScheduledSweepView {
        match outcome {
            Ok(samples) => self.after_capture(samples),
            Err(error) => self.after_failure(error),
        }
    }

    /// The verdict that is handed back for an outcome: that on the samples,
    /// where a capture was under way and it yielded samples.
    pub open spec fn verdict_on(self, outcome: Result<Seq<u8>, SweepError>) -> Option<Verdict> {
        match outcome {
            Ok(samples) => if self.phase is Capturing {
                Some(verdict_of(samples, self.threshold))
            } else {
                None
            },
            Err(_) => None,
        }
    }

    /// The entries of a finished sweep: one per record, in the order in which
    /// the frequencies first qualified, numbered from 0.
    pub open spec fn entries(self) -> Seq<ScheduledEntryView> {
        Seq::new(self.records.len(), |i: int| scheduled_entry(self.records, i))
    }

    /// What the sweep yields: the entries once it has finished, after a
    /// failure the error and nothing else, before that `Unfinished`.
    pub open spec fn result(self) -> Result<Seq<ScheduledEntryView>, SweepError> {
        match self.phase {
            Phase::Finished => Ok(self.entries()),
            Phase::Failed(error) => Err(error),
            _ => Err(SweepError::Unfinished),
        }
    }
}

/// A countdown, then passes over a band again and again until the time is
/// used up. It says what is due, takes in clock readings and how each capture
/// ended, and hands out the result when it has finished.
pub struct ScheduledSweep {
    band: FrequencyBand,
    threshold: u32,
    scan_secs: u64,
    phase: Phase,
    aggregator: ScheduledAggregator,
}

impl View for ScheduledSweep {
    type V = ScheduledSweepView;

    closed spec fn view(&self) -> ScheduledSweepView {
        ScheduledSweepView {
            band: self.band,
            threshold: self.threshold,
            scan_secs: self.scan_secs,
            phase: self.phase,
            records: self.aggregator@,
        }
    }
}

impl ScheduledSweep {
    /// Holds of every sweep that `new` hands out, and stays so.
    pub closed spec fn wf(&self) -> bool {
        self.aggregator.wf() && self@.wf()
    }

    pub proof fn lemma_wf(&self)
        requires
            self.wf(),
        ensures
            self@.wf(),
    {
    }

    pub fn new(band: FrequencyBand, threshold: u32, start_after_secs: u64, scan_secs: u64) -> (sweep:
        ScheduledSweep)
        ensures
            sweep.wf(),
            sweep@ == ScheduledSweepView::start(band, threshold, start_after_secs, scan_secs),
    {
        ScheduledSweep {
            band,
            threshold,
            scan_secs,
            phase: Phase::Countdown { remaining_secs: start_after_secs },
            aggregator: ScheduledAggregator::new(),
        }
    }

    pub fn phase(&self) -> (phase: Phase)
        ensures
            phase == self@.phase,
    {
        self.phase
    }

    /// Takes in a clock reading, `elapsed_secs` whole seconds since the driver
    /// was told to begin, and says what is due.
    pub fn tick(&mut self, elapsed_secs: u64) -> (action: ScheduledAction)
        requires
            old(self).wf(),
        ensures
            final(self).wf(),
            final(self)@ == old(self)@.after_tick(elapsed_secs),
            action == old(self)@.action_on_tick(elapsed_secs),
    {
        match self.phase {
            Phase::Countdown { remaining_secs } => {
                if remaining_secs > 0 {
                    self.phase = Phase::Countdown { remaining_secs: remaining_secs - 1 };
                    ScheduledAction::Wait { remaining_secs }
                } else {
                    self.phase = Phase::PassStart;
                    ScheduledAction::Begin
                }
            },
            Phase::PassStart => {
                if elapsed_secs >= self.scan_secs {
                    self.phase = Phase::Finished;
                    ScheduledAction::Finish
                } else {
                    if let Some(frequency_hz) = self.band.first() {
                        self.phase = Phase::Walking { frequency_hz };
                    }
                    ScheduledAction::Continue
                }
            },
            Phase::Walking { frequency_hz } => {
                if elapsed_secs >= self.scan_secs {
                    self.phase = Phase::PassStart;
                    ScheduledAction::Continue
                } else {
                    self.phase = Phase::Capturing { frequency_hz, started_at: elapsed_secs };
                    ScheduledAction::Capture { frequency_hz }
                }
            },
            Phase::Capturing { frequency_hz, .. } => ScheduledAction::Capture { frequency_hz },
            Phase::Finished => ScheduledAction::Finish,
            Phase::Failed(_) => ScheduledAction::Finish,
        }
    }

    /// Takes in how the capture under way ended. Hands back the verdict on
    /// the samples, or `None` where no samples were taken in.
    pub fn capture_ended(&mut self, outcome: Result<Vec<u8>, SweepError>) -> (verdict: Option<Verdict>)
        requires
            old(self).wf(),
        ensures
            final(self).wf(),
            final(self)@ == old(self)@.after_outcome(outcome_view(outcome)),
            verdict == old(self)@.verdict_on(outcome_view(outcome)),
    {
        let (frequency_hz, started_at): (u64, u64) = match self.phase {
            Phase::Capturing { frequency_hz, started_at } => (frequency_hz, started_at),
            _ => {
                return None;
            },
        };
        match outcome {
            Ok(samples) => {
                let verdict = assess(samples.as_slice(), self.threshold);
                if let Verdict::Detected { strength } = verdict {
                    let detection = Detection { frequency_hz, strength, sample_count: samples.len() };
                    proof {
                        lemma_record_within_budget(old(self)@, detection, started_at);
                    }
                    self.aggregator.record(detection, started_at);
                }
                self.phase = match self.band.next_after(frequency_hz) {
                    Some(next) => Phase::Walking { frequency_hz: next },
                    None => Phase::PassStart,
                };
                Some(verdict)
            },
            Err(error) => {
                if error.is_fatal() {
                    self.phase = Phase::Failed(error);
                }
                None
            },
        }
    }

    /// The result of the sweep.
    pub fn finalize(&self) -> (result: Result<Vec<ScheduledEntry>, SweepError>)
        requires
            self.wf(),
        ensures
            result matches Ok(entries) ==> self@.result() is Ok && entries@.len()
                == self@.entries().len() && forall|i: int|
                0 <= i < entries@.len() ==> (#[trigger] entries@[i])@ == self@.entries()[i],
            result matches Err(error) ==> self@.result() == Err::<Seq<ScheduledEntryView>, SweepError>(
                error,
            ),
    {
        match self.phase {
            Phase::Finished => Ok(self.aggregator.finalize()),
            Phase::Failed(error) => Err(error),
            _ => Err(SweepError::Unfinished),
        }
    }
}

/// Recording a window that began before the time was used up keeps every
/// window of every record before that time.
proof fn lemma_record_within_budget(sweep: ScheduledSweepView, detection: Detection, started_at: u64)
    requires
        sweep.wf(),
        started_at < sweep.scan_secs,
    ensures
        forall|i: int, j: int|
            0 <= i < scheduled_record(sweep.records, detection, started_at).len() && 0 <= j
                < scheduled_record(sweep.records, detection, started_at)[i].windows.len()
                ==> #[trigger] scheduled_record(
                sweep.records,
                detection,
                started_at,
            )[i].windows[j] < sweep.scan_secs,
{
    let after = scheduled_record(sweep.records, detection, started_at);
    assert forall|i: int, j: int|
        0 <= i < after.len() && 0 <= j < after[i].windows.len() implies #[trigger] after[i].windows[j]
        < sweep.scan_secs by {
        match position_of(sweep.records, detection.frequency_hz) {
            Some(p) => {
                if i == p {
                    if j < sweep.records[p].windows.len() {
                        assert(after[i].windows[j] == sweep.records[p].windows[j]);
                    }
                } else {
                    assert(after[i].windows[j] == sweep.records[i].windows[j]);
                }
            },
            None => {
                if i < sweep.records.len() {
                    assert(after[i].windows[j] == sweep.records[i].windows[j]);
                }
            },
        }
    }
}

/// The sweep keeps to its time. It finishes only at the check before a pass,
/// and only on a reading at or after `scan_secs`: never earlier. A capture
/// begins only on a reading before `scan_secs`, and its window is recorded as
/// beginning at that reading. On a reading at or after `scan_secs` a sweep
/// within a pass leaves the pass, and a sweep between passes finishes: so
/// the sweep runs past `scan_secs` by no more than the capture that was under
/// way when the time ran out.
pub proof fn lemma_time_budget(sweep: ScheduledSweepView, elapsed_secs: u64)
    ensures
        sweep.after_tick(elapsed_secs).phase is Finished && !(sweep.phase is Finished) ==> elapsed_secs
            >= sweep.scan_secs && sweep.phase is PassStart,
        sweep.action_on_tick(elapsed_secs) is Finish && !(sweep.phase is Finished) && !(sweep.phase
            is Failed) ==> elapsed_secs >= sweep.scan_secs,
        sweep.after_tick(elapsed_secs).phase is Capturing && !(sweep.phase is Capturing)
            ==> elapsed_secs < sweep.scan_secs && sweep.after_tick(elapsed_secs).phase
            == (Phase::Capturing {
            frequency_hz: sweep.phase->Walking_frequency_hz,
            started_at: elapsed_secs,
        }),
        elapsed_secs >= sweep.scan_secs && sweep.phase is Walking ==> sweep.after_tick(
            elapsed_secs,
        ).phase is PassStart,
        elapsed_secs >= sweep.scan_secs && sweep.phase is PassStart ==> sweep.after_tick(
            elapsed_secs,
        ).phase is Finished && sweep.action_on_tick(elapsed_secs) is Finish,
{
}

/// A sweep in the hands of a driver whose clock moves only while a capture is
/// under way, and then by `capture_secs`: the sweep and the clock after
/// `steps` readings. Every capture succeeds; `samples_at` gives the samples
/// that the capture on a frequency yields when it begins at a given second.
pub open spec fn driven(
    sweep: ScheduledSweepView,
    clock: nat,
    capture_secs: nat,
    samples_at: spec_fn(u64, u64) -> Seq<u8>,
    steps: nat,
) -> (ScheduledSweepView, nat)
    decreases steps,
{
    if steps == 0 {
        (sweep, clock)
    } else {
        let (before, now) = driven(sweep, clock, capture_secs, samples_at, (steps - 1) as nat);
        let ticked = before.after_tick(now as u64);
        match before.action_on_tick(now as u64) {
            ScheduledAction::Begin => (ticked, 0nat),
            ScheduledAction::Capture { frequency_hz } => (
                ticked.after_capture(samples_at(frequency_hz, now as u64)),
                now + capture_secs,
            ),
            _ => (ticked, now),
        }
    }
}

/// With such a driver a sweep never finishes before `scan_secs` have gone by,
/// and when it finishes the clock is past `scan_secs` by no more than the
/// length of one capture: by less, where a capture takes any time at all.
pub proof fn lemma_finishes_on_time(
    band: FrequencyBand,
    threshold: u32,
    start_after_secs: u64,
    scan_secs: u64,
    clock: nat,
    capture_secs: nat,
    samples_at: spec_fn(u64, u64) -> Seq<u8>,
    steps: nat,
)
    requires
        scan_secs + capture_secs <= u64::MAX,
        clock <= u64::MAX,
    ensures
        ({
            let (end, now) = driven(
                ScheduledSweepView::start(band, threshold, start_after_secs, scan_secs),
                clock,
                capture_secs,
                samples_at,
                steps,
            );
            end.phase is Finished ==> scan_secs <= now <= scan_secs + capture_secs && (capture_secs
                >= 1 ==> now < scan_secs + capture_secs)
        }),
{
    lemma_driven_keeps_time(
        band,
        threshold,
        start_after_secs,
        scan_secs,
        clock,
        capture_secs,
        samples_at,
        steps,
    );
}

spec fn within_overrun(now: nat, scan_secs: u64, capture_secs: nat) -> bool {
    now <= scan_secs + capture_secs && (capture_secs >= 1 ==> now < scan_secs + capture_secs)
}

proof fn lemma_driven_keeps_time(
    band: FrequencyBand,
    threshold: u32,
    start_after_secs: u64,
    scan_secs: u64,
    clock: nat,
    capture_secs: nat,
    samples_at: spec_fn(u64, u64) -> Seq<u8>,
    steps: nat,
)
    requires
        scan_secs + capture_secs <= u64::MAX,
        clock <= u64::MAX,
    ensures
        ({
            let (end, now) = driven(
                ScheduledSweepView::start(band, threshold, start_after_secs, scan_secs),
                clock,
                capture_secs,
                samples_at,
                steps,
            );
            &&& end.scan_secs == scan_secs
            &&& end.band == band
            &&& now <= u64::MAX
            &&& match end.phase {
                Phase::Countdown { .. } => true,
                Phase::PassStart => within_overrun(now, scan_secs, capture_secs),
                Phase::Walking { .. } => within_overrun(now, scan_secs, capture_secs),
                Phase::Capturing { .. } => false,
                Phase::Finished => scan_secs <= now && within_overrun(now, scan_secs, capture_secs),
                Phase::Failed(_) => false,
            }
        }),
    decreases steps,
{
    if steps > 0 {
        lemma_driven_keeps_time(
            band,
            threshold,
            start_after_secs,
            scan_secs,
            clock,
            capture_secs,
            samples_at,
            (steps - 1) as nat,
        );
    }
}

/// Whatever happens to a sweep, every window it has recorded began before
/// `scan_secs`, and so ended, one second later, at `scan_secs` at the latest.
pub proof fn lemma_windows_within_budget(
    sweep: ScheduledSweepView,
    elapsed_secs: u64,
    outcome: Result<Seq<u8>, SweepError>,
)
    requires
        sweep.wf(),
    ensures
        sweep.after_tick(elapsed_secs).wf(),
        sweep.after_outcome(outcome).wf(),
        forall|i: int, j: int|
            0 <= i < sweep.records.len() && 0 <= j < sweep.records[i].windows.len()
                ==> #[trigger] sweep.records[i].windows[j] + 1 <= sweep.scan_secs,
{
    if let Ok(samples) = outcome {
        if let Phase::Capturing { frequency_hz, started_at } = sweep.phase {
            if let Verdict::Detected { strength } = verdict_of(samples, sweep.threshold) {
                let detection = Detection {
                    frequency_hz,
                    strength,
                    sample_count: samples.len() as usize,
                };
                lemma_record_within_budget(sweep, detection, started_at);
                crate::aggregator::lemma_record_keeps_well_formed(
                    sweep.records,
                    detection,
                    started_at,
                );
            }
        }
    }
}

/// A capture without samples records nothing, whatever the threshold.
pub proof fn lemma_empty_capture_records_nothing(sweep: ScheduledSweepView)
    ensures
        sweep.after_capture(Seq::empty()).records == sweep.records,
{
    crate::analyzer::lemma_empty_capture_is_silent(sweep.threshold);
}

/// A capture whose peak is at or below the threshold records nothing.
pub proof fn lemma_quiet_capture_records_nothing(sweep: ScheduledSweepView, samples: Seq<u8>)
    requires
        !(verdict_of(samples, sweep.threshold) is Detected),
    ensures
        sweep.after_capture(samples).records == sweep.records,
{
}

/// The countdown tells the driver to wait once for every second of it,
/// counting down, and then to begin.
pub proof fn lemma_countdown(sweep: ScheduledSweepView, elapsed_secs: u64)
    requires
        sweep.phase is Countdown,
    ensures
        sweep.phase->remaining_secs > 0 ==> sweep.action_on_tick(elapsed_secs)
            == (ScheduledAction::Wait { remaining_secs: sweep.phase->remaining_secs })
            && sweep.after_tick(elapsed_secs).phase == (Phase::Countdown {
            remaining_secs: (sweep.phase->remaining_secs - 1) as u64,
        }),
        sweep.phase->remaining_secs == 0 ==> sweep.action_on_tick(elapsed_secs)
            == ScheduledAction::Begin && sweep.after_tick(elapsed_secs).phase == Phase::PassStart,
        sweep.after_tick(elapsed_secs).records == sweep.records,
{
}

} // verus!
