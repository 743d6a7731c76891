//! The records that a forecast is made of, and how they are written to the
//! snapshot.

use crate::timestamp::display_stamp;
use crate::timestamp::displayed_stamp;
use crate::timestamp::Timestamp;
use vstd::prelude::*;

verus! {

/// The forecast for one interval: its two ends in UTC and the forecast
/// intensity, in grams of carbon dioxide per kilowatt hour, as the service
/// gave it.
#[derive(Clone, Copy, Debug, PartialEq, Eq, Structural)]
pub struct CarbonIntensity {
    pub from: Timestamp,
    pub to: Timestamp,
    pub intensity: i64,
}

impl CarbonIntensity {
    /// Whether the interval ends after it starts. The service is expected to
    /// send such intervals only; what it sends is kept as it is, so a reader
    /// who depends on this asks.
    pub open spec fn runs_forward(self) -> bool {
        self.from.precedes(self.to)
    }

    /// Whether both ends of the interval fall on the start of a minute.
    pub open spec fn on_the_minute(self) -> bool {
        self.from.is_whole_minute() && self.to.is_whole_minute()
    }

    /// Tells whether the interval ends after it starts.
    pub fn is_forward(&self) -> (forward: bool)
        ensures
            forward == self.runs_forward(),
    {
        self.from.is_before(&self.to)
    }

    /// The object that stands for this record in the snapshot.
    pub fn snapshot_entry(&self) -> (entry: SnapshotEntry)
        ensures
            entry@ == snapshot_entry_of(*self),
    {
        SnapshotEntry {
            from: display_stamp(self.from),
            to: display_stamp(self.to),
            intensity: self.intensity,
        }
    }
}

impl Default for CarbonIntensity {
    /// An empty interval at the Unix epoch with intensity zero.
    fn default() -> (record: CarbonIntensity)
        ensures
            record.from.secs() == 0,
            record.from.nanos() == 0,
            record.to.secs() == 0,
            record.to.nanos() == 0,
            record.intensity == 0,
    {
        CarbonIntensity { from: Timestamp::epoch(), to: Timestamp::epoch(), intensity: 0 }
    }
}

/// One object of the snapshot: the two ends of the interval as text, and the
/// intensity.
#[derive(Clone, Debug, PartialEq, Eq)]
pub struct SnapshotEntry {
    pub from: String,
    pub to: String,
    pub intensity: i64,
}

/// A `SnapshotEntry` as a mathematical value.
pub struct SnapshotEntryView {
    pub from: Seq<char>,
    pub to: Seq<char>,
    pub intensity: i64,
}

impl View for SnapshotEntry {
    type V = SnapshotEntryView;

    open spec fn view(&self) -> SnapshotEntryView {
        SnapshotEntryView { from: self.from@, to: self.to@, intensity: self.intensity }
    }
}

impl DeepView for SnapshotEntry {
    type V = SnapshotEntryView;

    open spec fn deep_view(&self) -> SnapshotEntryView {
        self@
    }
}

/// The snapshot object of `record`: each end as `chrono` displays it, and
/// the intensity unchanged.
pub open spec fn snapshot_entry_of(record: CarbonIntensity) -> SnapshotEntryView {
    SnapshotEntryView {
        from: displayed_stamp(record.from),
        to: displayed_stamp(record.to),
        intensity: record.intensity,
    }
}

/// The snapshot of `records`: one object for each record, in their order.
pub open spec fn snapshot_of(records: Seq<CarbonIntensity>) -> Seq<SnapshotEntryView> {
    Seq::new(records.len(), |i: int| snapshot_entry_of(records[i]))
}

/// Makes the snapshot of `records`.
pub fn snapshot(records: &Vec<CarbonIntensity>) -> (entries: Vec<SnapshotEntry>)
    ensures
        entries.deep_view() == snapshot_of(records@),
{
    let mut entries: Vec<SnapshotEntry> = Vec::new();
    let mut i: usize = 0;
    while i < records.len()
        invariant
            i <= records.len(),
            entries.len() == i,
            forall|j: int| 0 <= j < i ==> (#[trigger] entries@[j])@ == snapshot_entry_of(records@[j]),
        decreases records.len() - i,
    {
        entries.push(records[i].snapshot_entry());
        i += 1;
    }
    assert(entries.deep_view() =~= snapshot_of(records@));
    entries
}

} // verus!
