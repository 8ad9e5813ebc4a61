use vstd::prelude::*;

verus! {

/// Lower edge of the default band, in Hz.
pub const DEFAULT_START_HZ: u64 = 380000000;

/// Upper edge of the default band, in Hz.
pub const DEFAULT_END_HZ: u64 = 420000000;

/// Distance between two neighbouring frequencies of the default band, in Hz.
pub const DEFAULT_STEP_HZ: u64 = 1000000;

/// A band of frequencies in Hz: `start`, `start + step`, `start + 2 * step`
/// and so on, as long as the frequency does not pass `end`. Both ends belong
/// to the band when the steps reach them. The step is never zero.
#[derive(Clone, Copy, Debug, PartialEq, Eq)]
pub struct FrequencyBand {
    start: u64,
    end: u64,
    step: u64,
}

impl FrequencyBand {
    #[verifier::type_invariant]
    spec fn positive_step(self) -> bool {
        self.step > 0
    }

    pub closed spec fn spec_start(&self) -> u64 {
        self.start
    }

    pub closed spec fn spec_end(&self) -> u64 {
        self.end
    }

    pub closed spec fn spec_step(&self) -> u64 {
        self.step
    }

    /// Holds of every band that `new` hands out.
    pub open spec fn wf(&self) -> bool {
        self.spec_step() > 0
    }

    /// The `k`-th frequency of a walk over the band, counted from zero, or
    /// `None` once the walk has passed the upper edge.
    pub open spec fn frequency_at(&self, k: nat) -> Option<u64> {
        if self.spec_start() + k * self.spec_step() <= self.spec_end() {
            Some((self.spec_start() + k * self.spec_step()) as u64)
        } else {
            None
        }
    }

    /// The frequency a walk begins with: `None` for a band whose lower edge
    /// lies above its upper edge.
    pub open spec fn first_of(&self) -> Option<u64> {
        if self.spec_start() <= self.spec_end() {
            Some(self.spec_start())
        } else {
            None
        }
    }

    /// The frequency a walk visits after `frequency`: one step further, or
    /// `None` when that would pass the upper edge.
    pub open spec fn next_of(&self, frequency: u64) -> Option<u64> {
        if frequency + self.spec_step() <= self.spec_end() {
            Some((frequency + self.spec_step()) as u64)
        } else {
            None
        }
    }

    /// A band from `start` to `end` in steps of `step`; `None` for a step of zero.
    pub fn new(start: u64, end: u64, step: u64) -> (band: Option<FrequencyBand>)
        ensures
            band is None <==> step == 0,
            band matches Some(b) ==> b.wf() && b.spec_start() == start && b.spec_end() == end
                && b.spec_step() == step,
    {
        if step == 0 {
            None
        } else {
            Some(FrequencyBand { start, end, step })
        }
    }

    /// The default band: 380 MHz to 420 MHz in steps of 1 MHz.
    pub fn standard() -> (band: FrequencyBand)
        ensures
            band.wf(),
            band.spec_start() == DEFAULT_START_HZ,
            band.spec_end() == DEFAULT_END_HZ,
            band.spec_step() == DEFAULT_STEP_HZ,
    {
        FrequencyBand { start: DEFAULT_START_HZ, end: DEFAULT_END_HZ, step: DEFAULT_STEP_HZ }
    }

    #[verifier::when_used_as_spec(spec_start)]
    pub fn start(&self) -> (hz: u64)
        ensures
            hz == self.spec_start(),
    {
        self.start
    }

    #[verifier::when_used_as_spec(spec_end)]
    pub fn end(&self) -> (hz: u64)
        ensures
            hz == self.spec_end(),
    {
        self.end
    }

    #[verifier::when_used_as_spec(spec_step)]
    pub fn step(&self) -> (hz: u64)
        ensures
            hz == self.spec_step(),
            hz > 0,
    {
        proof {
            use_type_invariant(self);
        }
        self.step
    }

    /// The frequency a walk over the band begins with.
    pub fn first(&self) -> (f: Option<u64>)
        ensures
            self.wf(),
            f == self.first_of(),
    {
        proof {
            use_type_invariant(self);
        }
        if self.start <= self.end {
            Some(self.start)
        } else {
            None
        }
    }

    /// The frequency a walk visits after `frequency`.
    pub fn next_after(&self, frequency: u64) -> (f: Option<u64>)
        ensures
            self.wf(),
            f == self.next_of(frequency),
            f matches Some(n) ==> n > frequency,
    {
        proof {
            use_type_invariant(self);
        }
        match frequency.checked_add(self.step) {
            Some(next) if next <= self.end => Some(next),
            _ => None,
        }
    }

    /// A walk that follows `first_of` and `next_of` visits the frequencies
    /// `start + k * step` in rising order and ends with the last of them that
    /// does not pass the upper edge.
    pub proof fn lemma_walk(&self, k: nat)
        requires
            self.wf(),
        ensures
            self.first_of() == self.frequency_at(0),
            self.frequency_at(k) matches Some(f) ==> self.next_of(f) == self.frequency_at(k + 1),
            self.frequency_at(k) is None ==> self.frequency_at(k + 1) is None,
    {
        assert((k + 1) * self.spec_step() == k * self.spec_step() + self.spec_step())
            by (nonlinear_arith);
        assert(0 * self.spec_step() == 0);
        assert(k * self.spec_step() >= 0) by (nonlinear_arith);
    }
}

} // verus!
