use crate::text::{decimal, render_windows, to_decimal, windows_text};
use std::collections::HashMap;
use vstd::prelude::*;

verus! {

broadcast use vstd::std_specs::hash::group_hash_axioms;

/// What a qualifying capture reports: the frequency in Hz, the peak strength
/// in thousandths of the analyzer's unit, and the number of samples captured.
#[derive(Clone, Copy, Debug, PartialEq, Eq, Structural)]
pub struct Detection {
    pub frequency_hz: u64,
    pub strength: u32,
    pub sample_count: usize,
}

/// The content of one entry of a single-pass result.
#[derive(Clone, Copy, Debug, PartialEq, Eq, Structural)]
pub enum InstantRecord {
    /// A capture whose peak rose above the threshold.
    Detected(Detection),
    /// Stands alone in the result of a pass that detected nothing: frequency,
    /// strength and sample count are all zero.
    NoSignal,
}

/// One entry of a single-pass result. Identifiers count from 1.
#[derive(Clone, Copy, Debug, PartialEq, Eq, Structural)]
pub struct InstantEntry {
    pub id: u64,
    pub record: InstantRecord,
}

/// The result of a single pass: the detections in the order met, numbered
/// from 1, or the one `NoSignal` entry under 1 when there is none.
pub open spec fn instant_export(detections: Seq<Detection>) -> Seq<InstantEntry> {
    if detections.len() == 0 {
        seq![InstantEntry { id: 1, record: InstantRecord::NoSignal }]
    } else {
        Seq::new(
            detections.len(),
            |i: int| InstantEntry { id: (i + 1) as u64, record: InstantRecord::Detected(detections[i]) },
        )
    }
}

impl InstantEntry {
    /// The identifier in decimal notation, as it keys the entry in a document.
    pub fn key(&self) -> (s: String)
        ensures
            s@ == decimal(self.id as nat),
    {
        to_decimal(self.id)
    }
}

/// Collects the detections of a single pass. Nothing is merged: every
/// detection becomes an entry of its own.
pub struct InstantAggregator {
    detections: Vec<Detection>,
}

impl View for InstantAggregator {
    type V = Seq<Detection>;

    closed spec fn view(&self) -> Seq<Detection> {
        self.detections@
    }
}

impl InstantAggregator {
    pub fn new() -> (aggregator: InstantAggregator)
        ensures
            aggregator@ == Seq::<Detection>::empty(),
    {
        InstantAggregator { detections: Vec::new() }
    }

    /// The number of detections recorded so far.
    pub fn len(&self) -> (n: usize)
        ensures
            n == self@.len(),
    {
        self.detections.len()
    }

    /// Adds a detection after those recorded before.
    pub fn record(&mut self, detection: Detection)
        ensures
            final(self)@ == old(self)@.push(detection),
    {
        self.detections.push(detection);
    }

    /// The entries to hand out, in the order of their identifiers.
    pub fn finalize(&self) -> (entries: Vec<InstantEntry>)
        ensures
            entries@ == instant_export(self@),
    {
        let mut entries: Vec<InstantEntry> = Vec::new();
        if self.detections.len() == 0 {
            entries.push(InstantEntry { id: 1, record: InstantRecord::NoSignal });
            assert(entries@ =~= instant_export(self@));
            return entries;
        }
        let mut i: usize = 0;
        while i < self.detections.len()
            invariant
                i <= self.detections@.len(),
                entries@.len() == i,
                forall|j: int|
                    0 <= j < i ==> entries@[j] == (InstantEntry {
                        id: (j + 1) as u64,
                        record: InstantRecord::Detected(self.detections@[j]),
                    }),
            decreases self.detections@.len() - i,
        {
            let id: u64 = (i + 1) as u64;
            entries.push(InstantEntry { id, record: InstantRecord::Detected(self.detections[i]) });
            i += 1;
        }
        assert(entries@ =~= instant_export(self@));
        entries
    }
}

/// A frequency that qualified during a repeating sweep: the values of its
/// latest qualifying capture, and the first second of every capture window in
/// which it qualified, oldest first.
pub struct ScheduledRecord {
    pub frequency_hz: u64,
    pub strength: u32,
    pub sample_count: usize,
    pub windows: Seq<u64>,
}

/// One entry of a repeating sweep's result, as it is handed out. Identifiers
/// count from 0 in the order in which the frequencies first qualified.
#[derive(Debug, PartialEq, Eq)]
pub struct ScheduledEntry {
    pub id: u64,
    pub frequency_hz: u64,
    pub strength: u32,
    pub sample_count: usize,
    /// The capture windows in text, such as `"2-3,7-8"`.
    pub durations: String,
}

/// A `ScheduledEntry` with its text as a sequence of characters.
pub struct ScheduledEntryView {
    pub id: u64,
    pub frequency_hz: u64,
    pub strength: u32,
    pub sample_count: usize,
    pub durations: Seq<char>,
}

impl View for ScheduledEntry {
    type V = ScheduledEntryView;

    open spec fn view(&self) -> ScheduledEntryView {
        ScheduledEntryView {
            id: self.id,
            frequency_hz: self.frequency_hz,
            strength: self.strength,
            sample_count: self.sample_count,
            durations: self.durations@,
        }
    }
}

impl ScheduledEntry {
    /// The identifier in decimal notation, as it keys the entry in a document.
    pub fn key(&self) -> (s: String)
        ensures
            s@ == decimal(self.id as nat),
    {
        to_decimal(self.id)
    }
}

/// Where the record of a frequency stands, if there is one.
pub open spec fn position_of(records: Seq<ScheduledRecord>, frequency_hz: u64) -> Option<int> {
    if exists|i: int| 0 <= i < records.len() && (#[trigger] records[i]).frequency_hz == frequency_hz {
        Some(
            choose|i: int|
                0 <= i < records.len() && (#[trigger] records[i]).frequency_hz == frequency_hz,
        )
    } else {
        None
    }
}

/// No two records are for the same frequency, and every record has at least
/// one capture window.
pub open spec fn well_formed(records: Seq<ScheduledRecord>) -> bool {
    &&& forall|i: int, j: int|
        0 <= i < j < records.len() ==> (#[trigger] records[i]).frequency_hz != (
        #[trigger] records[j]).frequency_hz
    &&& forall|i: int| 0 <= i < records.len() ==> (#[trigger] records[i]).windows.len() >= 1
}

/// The records after a qualifying capture of `detection.frequency_hz` whose
/// window began at `elapsed_secs`. A frequency seen for the first time gets a
/// new record behind the others. For a frequency seen before, strength and
/// sample count are overwritten and the window is added behind its earlier
/// ones, even where it repeats or touches one of them.
pub open spec fn scheduled_record(
    records: Seq<ScheduledRecord>,
    detection: Detection,
    elapsed_secs: u64,
) -> Seq<ScheduledRecord> {
    match position_of(records, detection.frequency_hz) {
        Some(i) => records.update(
            i,
            ScheduledRecord {
                frequency_hz: detection.frequency_hz,
                strength: detection.strength,
                sample_count: detection.sample_count,
                windows: records[i].windows.push(elapsed_secs),
            },
        ),
        None => records.push(
            ScheduledRecord {
                frequency_hz: detection.frequency_hz,
                strength: detection.strength,
                sample_count: detection.sample_count,
                windows: seq![elapsed_secs],
            },
        ),
    }
}

/// The entry that is handed out for the record at position `i`.
pub open spec fn scheduled_entry(records: Seq<ScheduledRecord>, i: int) -> ScheduledEntryView {
    ScheduledEntryView {
        id: i as u64,
        frequency_hz: records[i].frequency_hz,
        strength: records[i].strength,
        sample_count: records[i].sample_count,
        durations: windows_text(records[i].windows),
    }
}

/// Records are never taken away or reordered, and the windows of a record
/// are only ever added to, at the end.
pub proof fn lemma_records_only_grow(
    records: Seq<ScheduledRecord>,
    detection: Detection,
    elapsed_secs: u64,
)
    ensures
        scheduled_record(records, detection, elapsed_secs).len() >= records.len(),
        forall|i: int|
            0 <= i < records.len() ==> (#[trigger] scheduled_record(
                records,
                detection,
                elapsed_secs,
            )[i]).frequency_hz == records[i].frequency_hz && records[i].windows.is_prefix_of(
                scheduled_record(records, detection, elapsed_secs)[i].windows,
            ),
{
    let after = scheduled_record(records, detection, elapsed_secs);
    assert forall|i: int| 0 <= i < records.len() implies (#[trigger] after[i]).frequency_hz
        == records[i].frequency_hz && records[i].windows.is_prefix_of(after[i].windows) by {
        match position_of(records, detection.frequency_hz) {
            Some(p) => {
                assert(records[p].frequency_hz == detection.frequency_hz);
                if i == p {
                    assert(after[i].windows == records[i].windows.push(elapsed_secs));
                } else {
                    assert(after[i] == records[i]);
                }
            },
            None => {
                assert(after[i] == records[i]);
            },
        }
    }
}

/// Identifiers are contiguous: a single pass numbers its entries 1, 2, 3 and
/// so on, a repeating sweep 0, 1, 2 and so on.
pub proof fn lemma_identifiers_are_contiguous(
    detections: Seq<Detection>,
    records: Seq<ScheduledRecord>,
    i: int,
)
    requires
        0 <= i < u64::MAX,
    ensures
        instant_export(detections).len() == if detections.len() == 0 {
            1
        } else {
            detections.len()
        },
        i < instant_export(detections).len() ==> instant_export(detections)[i].id == i + 1,
        scheduled_entry(records, i).id == i,
{
}

/// Recording keeps the records well formed.
pub proof fn lemma_record_keeps_well_formed(
    records: Seq<ScheduledRecord>,
    detection: Detection,
    elapsed_secs: u64,
)
    requires
        well_formed(records),
    ensures
        well_formed(scheduled_record(records, detection, elapsed_secs)),
{
    let after = scheduled_record(records, detection, elapsed_secs);
    match position_of(records, detection.frequency_hz) {
        Some(p) => {
            assert(records[p].frequency_hz == detection.frequency_hz);
            assert forall|i: int, j: int| 0 <= i < j < after.len() implies (#[trigger] after[i]).frequency_hz
                != (#[trigger] after[j]).frequency_hz by {
                assert(after[i].frequency_hz == records[i].frequency_hz);
                assert(after[j].frequency_hz == records[j].frequency_hz);
            }
            assert forall|i: int| 0 <= i < after.len() implies (#[trigger] after[i]).windows.len()
                >= 1 by {
                if i != p {
                    assert(after[i] == records[i]);
                }
            }
        },
        None => {
            assert forall|i: int, j: int| 0 <= i < j < after.len() implies (#[trigger] after[i]).frequency_hz
                != (#[trigger] after[j]).frequency_hz by {
                assert(after[i] == records[i]);
                if j < records.len() {
                    assert(after[j] == records[j]);
                }
            }
            assert forall|i: int| 0 <= i < after.len() implies (#[trigger] after[i]).windows.len()
                >= 1 by {
                if i < records.len() {
                    assert(after[i] == records[i]);
                }
            }
        },
    }
}

struct StoredRecord {
    frequency_hz: u64,
    strength: u32,
    sample_count: usize,
    windows: Vec<u64>,
}

impl View for StoredRecord {
    type V = ScheduledRecord;

    closed spec fn view(&self) -> ScheduledRecord {
        ScheduledRecord {
            frequency_hz: self.frequency_hz,
            strength: self.strength,
            sample_count: self.sample_count,
            windows: self.windows@,
        }
    }
}

/// Collects the detections of a repeating sweep, one record per frequency, in
/// the order in which the frequencies first qualified.
pub struct ScheduledAggregator {
    index: HashMap<u64, usize>,
    records: Vec<StoredRecord>,
}

impl View for ScheduledAggregator {
    type V = Seq<ScheduledRecord>;

    closed spec fn view(&self) -> Seq<ScheduledRecord> {
        Seq::new(self.records@.len(), |i: int| self.records@[i]@)
    }
}

impl ScheduledAggregator {
    /// The index by frequency and the list of records agree.
    pub closed spec fn wf(&self) -> bool {
        &&& forall|i: int|
            0 <= i < self.records@.len() ==> self.index@.contains_key(
                (#[trigger] self.records@[i]).frequency_hz,
            ) && self.index@[self.records@[i].frequency_hz] == i
        &&& forall|f: u64| #[trigger]
            self.index@.contains_key(f) ==> self.index@[f] < self.records@.len()
                && self.records@[self.index@[f] as int].frequency_hz == f
        &&& forall|i: int| 0 <= i < self.records@.len() ==> (#[trigger] self.records@[i]).windows@.len() >= 1
    }

    pub proof fn lemma_wf(&self)
        requires
            self.wf(),
        ensures
            well_formed(self@),
    {
        assert forall|i: int, j: int| 0 <= i < j < self@.len() implies (#[trigger] self@[i]).frequency_hz
            != (#[trigger] self@[j]).frequency_hz by {
            assert(self.index@[self.records@[i].frequency_hz] == i);
            assert(self.index@[self.records@[j].frequency_hz] == j);
        }
        assert forall|i: int| 0 <= i < self@.len() implies (#[trigger] self@[i]).windows.len() >= 1 by {
            assert(self.records@[i].windows@.len() >= 1);
        }
    }

    pub fn new() -> (aggregator: ScheduledAggregator)
        ensures
            aggregator.wf(),
            aggregator@ == Seq::<ScheduledRecord>::empty(),
    {
        let aggregator = ScheduledAggregator { index: HashMap::new(), records: Vec::new() };
        assert(aggregator@ =~= Seq::<ScheduledRecord>::empty());
        aggregator
    }

    /// The number of frequencies recorded so far.
    pub fn len(&self) -> (n: usize)
        ensures
            n == self@.len(),
    {
        self.records.len()
    }

    /// Takes in a qualifying capture whose window began `elapsed_secs` seconds
    /// into the sweep.
    pub fn record(&mut self, detection: Detection, elapsed_secs: u64)
        requires
            old(self).wf(),
        ensures
            final(self).wf(),
            well_formed(final(self)@),
            final(self)@ == scheduled_record(old(self)@, detection, elapsed_secs),
    {
        let frequency_hz: u64 = detection.frequency_hz;
        let ghost before = self@;
        match self.index.get(&frequency_hz) {
            Some(found) => {
                let i: usize = *found;
                assert(self.records@[i as int].frequency_hz == frequency_hz);
                assert(before[i as int].frequency_hz == frequency_hz);
                proof {
                    self.lemma_wf();
                    let c = position_of(before, frequency_hz)->Some_0;
                    assert(before[c].frequency_hz == frequency_hz);
                    assert(self.records@[c].frequency_hz == frequency_hz);
                    assert(c == i);
                }
                let stored = &mut self.records[i];
                stored.strength = detection.strength;
                stored.sample_count = detection.sample_count;
                stored.windows.push(elapsed_secs);
                assert(self@ =~= scheduled_record(before, detection, elapsed_secs));
            },
            None => {
                assert(position_of(before, frequency_hz) is None) by {
                    if exists|i: int|
                        0 <= i < before.len() && (#[trigger] before[i]).frequency_hz == frequency_hz {
                        let i = choose|i: int|
                            0 <= i < before.len() && (#[trigger] before[i]).frequency_hz
                                == frequency_hz;
                        assert(self.records@[i].frequency_hz == frequency_hz);
                    }
                }
                let position: usize = self.records.len();
                let mut windows: Vec<u64> = Vec::new();
                windows.push(elapsed_secs);
                self.records.push(
                    StoredRecord {
                        frequency_hz,
                        strength: detection.strength,
                        sample_count: detection.sample_count,
                        windows,
                    },
                );
                self.index.insert(frequency_hz, position);
                assert(self@ =~= scheduled_record(before, detection, elapsed_secs));
            },
        }
        proof {
            self.lemma_wf();
        }
    }

    /// The entries to hand out, in the order of their identifiers.
    pub fn finalize(&self) -> (entries: Vec<ScheduledEntry>)
        requires
            self.wf(),
        ensures
            entries@.len() == self@.len(),
            forall|i: int|
                0 <= i < entries@.len() ==> (#[trigger] entries@[i])@ == scheduled_entry(self@, i),
    {
        let mut entries: Vec<ScheduledEntry> = Vec::new();
        let mut i: usize = 0;
        while i < self.records.len()
            invariant
                i <= self.records@.len(),
                entries@.len() == i,
                forall|j: int| 0 <= j < i ==> (#[trigger] entries@[j])@ == scheduled_entry(self@, j),
            decreases self.records@.len() - i,
        {
            let stored = &self.records[i];
            let id: u64 = i as u64;
            entries.push(
                ScheduledEntry {
                    id,
                    frequency_hz: stored.frequency_hz,
                    strength: stored.strength,
                    sample_count: stored.sample_count,
                    durations: render_windows(stored.windows.as_slice()),
                },
            );
            i += 1;
        }
        entries
    }
}

} // verus!
