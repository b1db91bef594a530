//! The snapshot cell: the single most-recent sensor reading, wholly replaced
//! on every push and read by any number of pollers.

use vstd::prelude::*;

verus! {

/// One sensor reading, immutable once captured.
///
/// `soil` and `light` are raw sensor values, stored verbatim with no range
/// validation. `auto_enabled` is the automation mode at the moment of
/// capture — copied in, not a live reference. `captured_at` is the capture
/// instant as an RFC 3339 timestamp.
pub struct SensorSnapshot {
    pub soil: i32,
    pub light: i32,
    pub is_watering: bool,
    pub auto_enabled: bool,
    pub captured_at: String,
}

/// Holds at most one [`SensorSnapshot`]: the latest. Absence (no push yet)
/// is a distinct state, never represented by a zero-valued snapshot.
pub struct SnapshotStore {
    pub latest: Option<SensorSnapshot>,
}

/// The store before any reading has arrived: absent.
pub open spec fn initial_snapshot_store() -> SnapshotStore {
    SnapshotStore { latest: None }
}

/// The store after a push: the new reading wholly replaces whatever was
/// there, absent or not — nothing is merged and no history is kept.
pub open spec fn after_write(s: SnapshotStore, snap: SensorSnapshot) -> SnapshotStore {
    SnapshotStore { latest: Some(snap) }
}

impl SnapshotStore {
    /// A fresh store with no reading yet.
    pub fn new() -> (s: Self)
        ensures
            s == initial_snapshot_store(),
    {
        SnapshotStore { latest: None }
    }

    /// Store a reading, replacing any previous one. The values are accepted
    /// as-is: validating them is the producer's concern, not this layer's.
    pub fn write(
        &mut self,
        soil: i32,
        light: i32,
        is_watering: bool,
        auto_enabled: bool,
        captured_at: String,
    )
        ensures
            *final(self) == after_write(
                *old(self),
                SensorSnapshot { soil, light, is_watering, auto_enabled, captured_at },
            ),
    {
        self.latest = Some(SensorSnapshot { soil, light, is_watering, auto_enabled, captured_at });
    }

    /// A copy of the current reading, or `None` if no push has ever arrived.
    pub fn read(&self) -> (r: Option<SensorSnapshot>)
        ensures
            r == self.latest,
    {
        match &self.latest {
            None => None,
            Some(s) => Some(
                SensorSnapshot {
                    soil: s.soil,
                    light: s.light,
                    is_watering: s.is_watering,
                    auto_enabled: s.auto_enabled,
                    captured_at: s.captured_at.clone(),
                },
            ),
        }
    }
}

/// Latest-wins: after two writes the store holds exactly the second reading,
/// the same state as if the first write had never happened — nothing of the
/// first reading remains observable.
pub proof fn lemma_latest_wins(s: SnapshotStore, first: SensorSnapshot, second: SensorSnapshot)
    ensures
        after_write(after_write(s, first), second) == after_write(s, second),
        after_write(after_write(s, first), second).latest == Some(second),
{
}

/// Absent before the first write: a fresh store reads as absent, and no
/// write ever produces that state — even a zero-valued reading is stored as
/// present, so absence is distinguishable from any stored snapshot.
pub proof fn lemma_absent_before_first_write(s: SnapshotStore, snap: SensorSnapshot)
    ensures
        initial_snapshot_store().latest is None,
        after_write(s, snap).latest is Some,
{
}

} // verus!
