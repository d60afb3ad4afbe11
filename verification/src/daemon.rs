//! The scan daemon: the single source of truth for "the current scan
//! result".  It owns the configured plugin locations and is the sole
//! producer of scan snapshots.
//!
//! The daemon's serve loop alternates outside work (the scanner capability
//! fingerprinting each location) and decisions.  The decisions live here:
//! given the per-location outcomes of one scanner pass, [`Daemon::run_scan`]
//! builds the published snapshot, and [`Daemon::on_shutdown`] takes the
//! terminal transition.  The embedding loop performs the scanner calls and
//! the channel traffic.

use crate::protocol::{outcome_view, result_wf, PluginEntry, ScanResult};
use vstd::prelude::*;

verus! {

/// Phase of the daemon's serve loop.  A scan is not interruptible, so the
/// transient scanning phase never outlives one call and only the two
/// resting phases are represented.
#[derive(Clone, Copy, PartialEq, Eq, Structural, Debug)]
pub enum DaemonPhase {
    /// Waiting for the next command; ready to scan.
    Idle,
    /// The serve loop has exited; no further scan will run.
    Terminated,
}

/// State owned by the scan daemon.
pub struct Daemon {
    /// Configured plugin locations, immutable for the daemon's lifetime.
    pub locations: Vec<String>,
    /// Number of scans completed so far; the next snapshot is numbered
    /// one higher.
    pub scans_done: u64,
    /// Phase of the serve loop.
    pub phase: DaemonPhase,
}

impl Daemon {
    /// Ghost model of the configured locations.
    pub open spec fn locs(&self) -> Seq<Seq<char>> {
        self.locations@.map_values(|s: String| s@)
    }

    /// Construct an idle daemon over a fixed set of plugin locations,
    /// with no scan completed yet.
    pub fn new(locations: Vec<String>) -> (d: Daemon)
        ensures
            d.locations == locations,
            d.scans_done == 0,
            d.phase is Idle,
    {
        Daemon { locations, scans_done: 0, phase: DaemonPhase::Idle }
    }

    /// Build and publish the snapshot of one scan cycle.
    ///
    /// `outcomes[i]` is what the scanner capability produced for
    /// `locations[i]`: a fingerprint or a failure note.  A per-location
    /// failure is data, not control flow: the snapshot always holds one
    /// entry per configured location, and its overall flag is false
    /// exactly when every location failed.
    pub fn run_scan(&mut self, outcomes: Vec<Result<String, String>>) -> (r: ScanResult)
        requires
            old(self).phase is Idle,
            outcomes@.len() == old(self).locations@.len(),
            old(self).scans_done < u64::MAX,
        ensures
            final(self).locations == old(self).locations,
            final(self).phase is Idle,
            final(self).scans_done == old(self).scans_done + 1,
            r@.seq == final(self).scans_done,
            r@.entries.len() == old(self).locs().len(),
            forall|i: int|
                0 <= i < outcomes@.len() ==> (#[trigger] r@.entries[i]).id == old(self).locs()[i]
                    && r@.entries[i].outcome == outcome_view(outcomes@[i]),
            (r@.success <==> exists|i: int| 0 <= i < outcomes@.len() && outcomes@[i] is Ok),
            result_wf(r@, old(self).locs()),
    {
        let n = self.locations.len();
        let mut entries: Vec<PluginEntry> = Vec::new();
        let mut any_ok = false;
        let mut i: usize = 0;
        while i < n
            invariant
                i <= n,
                n == self.locations@.len(),
                outcomes@.len() == n,
                self == old(self),
                entries@.len() == i as int,
                forall|j: int|
                    0 <= j < i as int ==> (#[trigger] entries@[j])@.id == self.locs()[j]
                        && entries@[j]@.outcome == outcome_view(outcomes@[j]),
                (any_ok <==> exists|j: int| 0 <= j < i as int && outcomes@[j] is Ok),
            decreases n - i,
        {
            let entry: PluginEntry = match &outcomes[i] {
                Ok(s) => {
                    any_ok = true;
                    PluginEntry { id: self.locations[i].clone(), outcome: Ok(s.clone()) }
                },
                Err(s) => PluginEntry {
                    id: self.locations[i].clone(),
                    outcome: Err(s.clone()),
                },
            };
            entries.push(entry);
            i += 1;
        }
        self.scans_done = self.scans_done + 1;
        let r = ScanResult { entries, seq: self.scans_done, success: any_ok };
        proof {
            assert forall|k: int| 0 <= k < outcomes@.len() implies (#[trigger] r@.entries[k]).id
                == old(self).locs()[k] && r@.entries[k].outcome == outcome_view(outcomes@[k]) by {
                assert(r@.entries[k] == entries@[k]@);
            }
            if r@.success {
                let w = choose|j: int| 0 <= j < outcomes@.len() && outcomes@[j] is Ok;
                assert(r@.entries[w].outcome is Ok);
            }
            if exists|j: int| 0 <= j < r@.entries.len() && (#[trigger] r@.entries[j].outcome) is Ok {
                let w = choose|j: int|
                    0 <= j < r@.entries.len() && (#[trigger] r@.entries[j].outcome) is Ok;
                assert(outcomes@[w] is Ok);
            }
        }
        r
    }

    /// Take the terminal transition of the serve loop: `Idle` to
    /// `Terminated`.  Everything else is unchanged; in particular the
    /// count of completed scans is kept, so no snapshot is forgotten.
    pub fn on_shutdown(&mut self)
        requires
            old(self).phase is Idle,
        ensures
            final(self).phase is Terminated,
            final(self).locations == old(self).locations,
            final(self).scans_done == old(self).scans_done,
    {
        self.phase = DaemonPhase::Terminated;
    }
}

} // verus!
