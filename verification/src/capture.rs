use crate::error::SweepError;
use vstd::prelude::*;

verus! {

/// Sample rate of the default receiver settings, in Hz.
pub const DEFAULT_SAMPLE_RATE_HZ: u32 = 1000000;

/// Divider that goes with the default sample rate.
pub const DEFAULT_SAMPLE_RATE_DIVIDER: u32 = 1;

/// LNA gain of the default receiver settings.
pub const DEFAULT_LNA_GAIN: u16 = 24;

/// VGA gain of the default receiver settings.
pub const DEFAULT_VGA_GAIN: u16 = 28;

/// Length of one capture window, in seconds.
pub const DEFAULT_CAPTURE_SECS: u64 = 1;

/// How the receiver is set up for a capture, and how long the capture lasts.
#[derive(Clone, Copy, Debug, PartialEq, Eq, Structural)]
pub struct RadioSettings {
    pub sample_rate_hz: u32,
    pub sample_rate_divider: u32,
    pub amp_enable: bool,
    pub lna_gain: u16,
    pub vga_gain: u16,
    pub capture_secs: u64,
}

impl RadioSettings {
    /// One million samples per second, amplifier on, LNA gain 24, VGA gain 28,
    /// windows of one second.
    pub fn standard() -> (settings: RadioSettings)
        ensures
            settings == (RadioSettings {
                sample_rate_hz: DEFAULT_SAMPLE_RATE_HZ,
                sample_rate_divider: DEFAULT_SAMPLE_RATE_DIVIDER,
                amp_enable: true,
                lna_gain: DEFAULT_LNA_GAIN,
                vga_gain: DEFAULT_VGA_GAIN,
                capture_secs: DEFAULT_CAPTURE_SECS,
            }),
    {
        RadioSettings {
            sample_rate_hz: DEFAULT_SAMPLE_RATE_HZ,
            sample_rate_divider: DEFAULT_SAMPLE_RATE_DIVIDER,
            amp_enable: true,
            lna_gain: DEFAULT_LNA_GAIN,
            vga_gain: DEFAULT_VGA_GAIN,
            capture_secs: DEFAULT_CAPTURE_SECS,
        }
    }
}

/// Where a capture stands. The receiver goes from closed to idle to
/// configured to receiving; a capture ends complete or failed.
#[derive(Clone, Copy, Debug, PartialEq, Eq, Structural)]
pub enum CaptureState {
    Closed,
    Idle,
    Configured,
    Receiving,
    Complete,
    Failed(SweepError),
}

/// What the receiver is to do next.
#[derive(Clone, Copy, Debug, PartialEq, Eq, Structural)]
pub enum RadioCommand {
    Open,
    Configure {
        frequency_hz: u64,
        sample_rate_hz: u32,
        sample_rate_divider: u32,
        amp_enable: bool,
        lna_gain: u16,
        vga_gain: u16,
    },
    EnterReceive,
    ReceiveChunk,
}

/// A capture as the contracts see it.
pub struct CaptureView {
    pub frequency_hz: u64,
    pub settings: RadioSettings,
    pub state: CaptureState,
    pub samples: Seq<u8>,
}

impl CaptureView {
    /// A capture that has not begun.
    pub open spec fn start(frequency_hz: u64, settings: RadioSettings) -> CaptureView {
        CaptureView { frequency_hz, settings, state: CaptureState::Closed, samples: Seq::empty() }
    }

    /// The command that is due, or `None` once the capture has ended.
    pub open spec fn command(self) -> Option<RadioCommand> {
        match self.state {
            CaptureState::Closed => Some(RadioCommand::Open),
            CaptureState::Idle => Some(
                RadioCommand::Configure {
                    frequency_hz: self.frequency_hz,
                    sample_rate_hz: self.settings.sample_rate_hz,
                    sample_rate_divider: self.settings.sample_rate_divider,
                    amp_enable: self.settings.amp_enable,
                    lna_gain: self.settings.lna_gain,
                    vga_gain: self.settings.vga_gain,
                },
            ),
            CaptureState::Configured => Some(RadioCommand::EnterReceive),
            CaptureState::Receiving => Some(RadioCommand::ReceiveChunk),
            CaptureState::Complete => None,
            CaptureState::Failed(_) => None,
        }
    }

    /// Whether a report that the due command succeeded is in order: it is for
    /// opening, configuring and entering receive mode.
    pub open spec fn accepts_done(self) -> bool {
        self.state == CaptureState::Closed || self.state == CaptureState::Idle || self.state
            == CaptureState::Configured
    }

    /// The capture after the due command succeeded. Out of order, nothing changes.
    pub open spec fn after_done(self) -> CaptureView {
        match self.state {
            CaptureState::Closed => CaptureView { state: CaptureState::Idle, ..self },
            CaptureState::Idle => CaptureView { state: CaptureState::Configured, ..self },
            CaptureState::Configured => CaptureView { state: CaptureState::Receiving, ..self },
            _ => self,
        }
    }

    /// The capture after a chunk arrived `elapsed_secs` whole seconds after
    /// receiving began: the chunk is kept behind the samples so far, and the
    /// capture is complete once the window has run its length. Out of order,
    /// nothing changes.
    pub open spec fn after_chunk(self, chunk: Seq<u8>, elapsed_secs: u64) -> CaptureView {
        if self.state == CaptureState::Receiving {
            CaptureView {
                state: if elapsed_secs >= self.settings.capture_secs {
                    CaptureState::Complete
                } else {
                    CaptureState::Receiving
                },
                samples: self.samples + chunk,
                ..self
            }
        } else {
            self
        }
    }

    /// The error that a failure of the due command amounts to.
    pub open spec fn failure(self) -> Option<SweepError> {
        match self.state {
            CaptureState::Closed => Some(SweepError::HardwareOpen),
            CaptureState::Idle => Some(SweepError::HardwareConfigure),
            CaptureState::Configured => Some(SweepError::HardwareConfigure),
            CaptureState::Receiving => Some(SweepError::Capture),
            CaptureState::Complete => None,
            CaptureState::Failed(_) => None,
        }
    }

    /// The capture after the due command failed: it has failed, for good, and
    /// what was received is dropped. Out of order, nothing changes.
    pub open spec fn after_failure(self) -> CaptureView {
        match self.failure() {
            Some(error) => CaptureView {
                state: CaptureState::Failed(error),
                samples: Seq::empty(),
                ..self
            },
            None => self,
        }
    }

    /// What the capture yields: all samples of a complete capture, the error
    /// of a failed one, `Unfinished` before that.
    pub open spec fn outcome(self) -> Result<Seq<u8>, SweepError> {
        match self.state {
            CaptureState::Complete => Ok(self.samples),
            CaptureState::Failed(error) => Err(error),
            _ => Err(SweepError::Unfinished),
        }
    }

    /// The capture after a run of chunks, each with the time at which it arrived.
    pub open spec fn after_chunks(self, chunks: Seq<(Seq<u8>, u64)>) -> CaptureView
        decreases chunks.len(),
    {
        if chunks.len() == 0 {
            self
        } else {
            self.after_chunks(chunks.drop_last()).after_chunk(chunks.last().0, chunks.last().1)
        }
    }
}

/// What ended a capture, with the samples as a sequence.
pub open spec fn outcome_view(outcome: Result<Vec<u8>, SweepError>) -> Result<Seq<u8>, SweepError> {
    match outcome {
        Ok(samples) => Ok(samples@),
        Err(error) => Err(error),
    }
}

/// One capture window on one frequency, step by step: it says which command
/// is due and takes in how the command went.
pub struct CaptureSession {
    frequency_hz: u64,
    settings: RadioSettings,
    state: CaptureState,
    samples: Vec<u8>,
}

impl View for CaptureSession {
    type V = CaptureView;

    closed spec fn view(&self) -> CaptureView {
        CaptureView {
            frequency_hz: self.frequency_hz,
            settings: self.settings,
            state: self.state,
            samples: self.samples@,
        }
    }
}

impl CaptureSession {
    pub fn new(frequency_hz: u64, settings: RadioSettings) -> (session: CaptureSession)
        ensures
            session@ == CaptureView::start(frequency_hz, settings),
    {
        CaptureSession { frequency_hz, settings, state: CaptureState::Closed, samples: Vec::new() }
    }

    pub fn state(&self) -> (state: CaptureState)
        ensures
            state == self@.state,
    {
        self.state
    }

    /// The command that is due, or `None` once the capture has ended.
    pub fn command(&self) -> (command: Option<RadioCommand>)
        ensures
            command == self@.command(),
    {
        match self.state {
            CaptureState::Closed => Some(RadioCommand::Open),
            CaptureState::Idle => Some(
                RadioCommand::Configure {
                    frequency_hz: self.frequency_hz,
                    sample_rate_hz: self.settings.sample_rate_hz,
                    sample_rate_divider: self.settings.sample_rate_divider,
                    amp_enable: self.settings.amp_enable,
                    lna_gain: self.settings.lna_gain,
                    vga_gain: self.settings.vga_gain,
                },
            ),
            CaptureState::Configured => Some(RadioCommand::EnterReceive),
            CaptureState::Receiving => Some(RadioCommand::ReceiveChunk),
            CaptureState::Complete => None,
            CaptureState::Failed(_) => None,
        }
    }

    /// Takes in that opening, configuring or entering receive mode succeeded.
    /// Returns whether the report was in order.
    pub fn done(&mut self) -> (accepted: bool)
        ensures
            accepted == old(self)@.accepts_done(),
            final(self)@ == old(self)@.after_done(),
    {
        match self.state {
            CaptureState::Closed => {
                self.state = CaptureState::Idle;
                true
            },
            CaptureState::Idle => {
                self.state = CaptureState::Configured;
                true
            },
            CaptureState::Configured => {
                self.state = CaptureState::Receiving;
                true
            },
            _ => false,
        }
    }

    /// Takes in a chunk of samples that arrived `elapsed_secs` whole seconds
    /// after receiving began. Returns whether a chunk was in order.
    pub fn chunk(&mut self, chunk: Vec<u8>, elapsed_secs: u64) -> (accepted: bool)
        ensures
            accepted == (old(self)@.state == CaptureState::Receiving),
            final(self)@ == old(self)@.after_chunk(chunk@, elapsed_secs),
    {
        match self.state {
            CaptureState::Receiving => {
                let mut chunk = chunk;
                self.samples.append(&mut chunk);
                if elapsed_secs >= self.settings.capture_secs {
                    self.state = CaptureState::Complete;
                }
                true
            },
            _ => false,
        }
    }

    /// Takes in that the due command failed. Returns whether a failure was in
    /// order: it is not once the capture has ended.
    pub fn failed(&mut self) -> (accepted: bool)
        ensures
            accepted == old(self)@.failure().is_some(),
            final(self)@ == old(self)@.after_failure(),
    {
        let error = match self.state {
            CaptureState::Closed => SweepError::HardwareOpen,
            CaptureState::Idle => SweepError::HardwareConfigure,
            CaptureState::Configured => SweepError::HardwareConfigure,
            CaptureState::Receiving => SweepError::Capture,
            _ => {
                return false;
            },
        };
        self.state = CaptureState::Failed(error);
        self.samples.clear();
        true
    }

    /// Ends the session and hands out what it yields.
    pub fn finish(self) -> (outcome: Result<Vec<u8>, SweepError>)
        ensures
            outcome_view(outcome) == self@.outcome(),
    {
        match self.state {
            CaptureState::Complete => Ok(self.samples),
            CaptureState::Failed(error) => Err(error),
            _ => Err(SweepError::Unfinished),
        }
    }
}

/// The samples of a run of chunks, one chunk after the other.
pub open spec fn joined(chunks: Seq<(Seq<u8>, u64)>) -> Seq<u8>
    decreases chunks.len(),
{
    if chunks.len() == 0 {
        Seq::empty()
    } else {
        joined(chunks.drop_last()) + chunks.last().0
    }
}

/// A receiving capture that is handed chunks, of which only the last may
/// arrive at or after the end of the window, holds all of them in order. It
/// is complete if the last one arrived at or after the end of the window and
/// is still receiving if not.
pub proof fn lemma_capture_run(capture: CaptureView, chunks: Seq<(Seq<u8>, u64)>)
    requires
        capture.state == CaptureState::Receiving,
        forall|i: int|
            0 <= i < chunks.len() - 1 ==> (#[trigger] chunks[i]).1 < capture.settings.capture_secs,
    ensures
        capture.after_chunks(chunks).samples == capture.samples + joined(chunks),
        capture.after_chunks(chunks).settings == capture.settings,
        capture.after_chunks(chunks).frequency_hz == capture.frequency_hz,
        capture.after_chunks(chunks).state == if chunks.len() > 0 && chunks.last().1
            >= capture.settings.capture_secs {
            CaptureState::Complete
        } else {
            CaptureState::Receiving
        },
    decreases chunks.len(),
{
    if chunks.len() == 0 {
        assert(capture.samples + joined(chunks) =~= capture.samples);
    } else {
        let front = chunks.drop_last();
        assert forall|i: int| 0 <= i < front.len() - 1 implies (#[trigger] front[i]).1
            < capture.settings.capture_secs by {
            assert(front[i] == chunks[i]);
        }
        lemma_capture_run(capture, front);
        if front.len() > 0 {
            assert(front.last() == chunks[front.len() - 1]);
        }
        assert(capture.samples + joined(front) + chunks.last().0 =~= capture.samples + joined(
            chunks,
        ));
    }
}

/// A capture that is receiving keeps every chunk, in order. It is complete as
/// soon as a chunk arrives at or after the end of the window, and not
/// before: so it takes at least one chunk, and chunks that come after the
/// capture is complete change nothing.
pub proof fn lemma_capture_window(capture: CaptureView, chunk: Seq<u8>, elapsed_secs: u64)
    requires
        capture.state == CaptureState::Receiving,
    ensures
        capture.outcome() == Err::<Seq<u8>, SweepError>(SweepError::Unfinished),
        capture.after_chunk(chunk, elapsed_secs).samples == capture.samples + chunk,
        capture.after_chunk(chunk, elapsed_secs).state == CaptureState::Complete <==> elapsed_secs
            >= capture.settings.capture_secs,
        capture.after_chunk(chunk, elapsed_secs).state == CaptureState::Receiving <==> elapsed_secs
            < capture.settings.capture_secs,
        elapsed_secs >= capture.settings.capture_secs ==> forall|more: Seq<u8>, later: u64|
            capture.after_chunk(chunk, elapsed_secs).after_chunk(more, later)
                == capture.after_chunk(chunk, elapsed_secs),
{
}

/// A failure is final: whatever is reported afterwards, the capture stays
/// failed with the same error and yields no samples.
pub proof fn lemma_failure_is_final(capture: CaptureView, chunk: Seq<u8>, elapsed_secs: u64)
    requires
        capture.state is Failed,
    ensures
        capture.after_done() == capture,
        capture.after_chunk(chunk, elapsed_secs) == capture,
        capture.after_failure() == capture,
        capture.command() is None,
        capture.outcome() is Err,
{
}

} // verus!
