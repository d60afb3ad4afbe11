//! Shared command/result protocol types exchanged between the scan daemon
//! and the response collector, together with their ghost models.

use vstd::prelude::*;

verus! {

/// A command sent from the response collector to the scan daemon.
///
/// Commands carry no payload: they are idempotent triggers, not
/// parameterized requests.
#[derive(Clone, Copy, PartialEq, Eq, Structural, Debug)]
pub enum Command {
    /// Request an immediate new scan.
    Refresh,
    /// Terminate the daemon's serve loop.
    Shutdown,
}

/// Why a collector call failed.
#[derive(Clone, Copy, PartialEq, Eq, Structural, Debug)]
pub enum CollectorError {
    /// No scan result has ever been received.
    Uninitialized,
    /// The command channel is closed: the daemon has terminated.
    DaemonUnreachable,
}

/// One per-location entry of a scan snapshot: the location's identifier
/// and either its computed fingerprint or a failure note.
pub struct PluginEntry {
    /// Identifier of the scanned plugin location.
    pub id: String,
    /// `Ok(fingerprint)` on success, `Err(note)` on a per-location failure.
    pub outcome: Result<String, String>,
}

/// Ghost model of a `PluginEntry`.
#[verifier::ext_equal]
pub struct EntryModel {
    pub id: Seq<char>,
    pub outcome: Result<Seq<char>, Seq<char>>,
}

/// Ghost model of a per-location scan outcome.
pub open spec fn outcome_view(o: Result<String, String>) -> Result<Seq<char>, Seq<char>> {
    match o {
        Ok(s) => Ok(s@),
        Err(s) => Err(s@),
    }
}

impl View for PluginEntry {
    type V = EntryModel;

    open spec fn view(&self) -> EntryModel {
        EntryModel { id: self.id@, outcome: outcome_view(self.outcome) }
    }
}

impl Clone for PluginEntry {
    fn clone(&self) -> (res: Self)
        ensures
            res == *self,
    {
        let outcome: Result<String, String> = match &self.outcome {
            Ok(s) => Ok(s.clone()),
            Err(s) => Err(s.clone()),
        };
        PluginEntry { id: self.id.clone(), outcome }
    }
}

/// An immutable snapshot produced by one scan cycle.
pub struct ScanResult {
    /// One entry per configured plugin location, in configuration order.
    pub entries: Vec<PluginEntry>,
    /// Monotonic sequence number of the scan that produced this snapshot;
    /// the first scan is numbered 1.
    pub seq: u64,
    /// Overall flag: false exactly when every location failed.
    pub success: bool,
}

/// Ghost model of a `ScanResult`.
#[verifier::ext_equal]
pub struct ResultModel {
    pub entries: Seq<EntryModel>,
    pub seq: u64,
    pub success: bool,
}

impl View for ScanResult {
    type V = ResultModel;

    open spec fn view(&self) -> ResultModel {
        ResultModel {
            entries: self.entries@.map_values(|e: PluginEntry| e@),
            seq: self.seq,
            success: self.success,
        }
    }
}

impl Clone for ScanResult {
    fn clone(&self) -> (res: Self)
        ensures
            res@ == self@,
    {
        let entries: Vec<PluginEntry> = self.entries.clone();
        proof {
            assert forall|i: int| 0 <= i < self.entries@.len() implies entries@[i]
                == self.entries@[i] by {
                assert(cloned(self.entries@[i], entries@[i]));
            }
            assert(entries@ =~= self.entries@);
        }
        ScanResult { entries, seq: self.seq, success: self.success }
    }
}

/// A snapshot is well formed for a configuration `locs` when it holds one
/// entry per configured location, in order and under the location's
/// identifier, when its overall flag is false exactly when every entry
/// failed, and when its sequence number is at least 1.
pub open spec fn result_wf(r: ResultModel, locs: Seq<Seq<char>>) -> bool {
    &&& r.entries.len() == locs.len()
    &&& forall|i: int| 0 <= i < locs.len() ==> (#[trigger] r.entries[i].id) == locs[i]
    &&& (r.success <==> exists|i: int|
        0 <= i < r.entries.len() && (#[trigger] r.entries[i].outcome) is Ok)
    &&& r.seq >= 1
}

} // verus!
