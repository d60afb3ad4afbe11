//! A single-process model of the wired core: the daemon, the collector,
//! and the two one-directional channels that connect them.
//!
//! The real process runs the daemon's serve loop on a dedicated worker and
//! the collector behind a lock on the request-handling workers; the
//! channels interleave their steps.  Every such interleaving is a sequence
//! of the atomic operations of [`System`]: a caller triggering a refresh,
//! a caller querying, the daemon taking the front command.  The invariant
//! [`System::inv`] and the contracts below therefore state what every
//! interleaving preserves: snapshots are published whole and in sequence
//! order, the channels lose nothing, and a query answers with the newest
//! drained snapshot or fails with `Uninitialized` exactly as long as
//! nothing has ever been published.

use crate::collector::ResponseCollector;
use crate::daemon::Daemon;
use crate::protocol::{result_wf, outcome_view, CollectorError, Command, ResultModel, ScanResult};
use vstd::prelude::*;

verus! {

/// The wired core: both endpoints of both channels, and the ghost history
/// of every snapshot the daemon has published.
pub struct System {
    /// The scan daemon's state.
    pub daemon: Daemon,
    /// The response collector's state.
    pub collector: ResponseCollector,
    /// Contents of the command channel, front at index 0.
    pub cmd_queue: Vec<Command>,
    /// Contents of the result channel, oldest at index 0.
    pub result_queue: Vec<ScanResult>,
    /// Whether the command channel is open; it closes when the daemon's
    /// serve loop exits.
    pub cmd_open: bool,
    /// Ghost history of every published snapshot, in publication order.
    pub published: Ghost<Seq<ResultModel>>,
}

impl System {
    /// Ghost model of the configured plugin locations.
    pub open spec fn locs(&self) -> Seq<Seq<char>> {
        self.daemon.locs()
    }

    /// How many published snapshots the collector has already drained
    /// from the result channel.
    pub open spec fn drained_count(&self) -> int {
        self.published@.len() - self.result_queue@.len()
    }

    /// Whether any scan has ever been published.
    pub open spec fn initialized(&self) -> bool {
        self.published@.len() > 0
    }

    /// The invariant every operation preserves.
    ///
    /// - The daemon has published exactly one snapshot per completed
    ///   scan, numbered 1, 2, ... in order, each well formed for the
    ///   configured locations (whole: never a partial mix of entries).
    /// - The result channel holds exactly the published snapshots not yet
    ///   drained, oldest first: nothing is lost, duplicated or reordered.
    /// - The collector holds the most recently drained snapshot, or
    ///   nothing when it has never drained one.
    /// - The command channel is open exactly as long as the daemon's
    ///   serve loop runs.
    pub open spec fn inv(&self) -> bool {
        let pubs = self.published@;
        &&& self.daemon.scans_done == pubs.len()
        &&& forall|k: int| 0 <= k < pubs.len() ==> (#[trigger] pubs[k]).seq == k + 1
        &&& forall|k: int| 0 <= k < pubs.len() ==> result_wf(#[trigger] pubs[k], self.locs())
        &&& self.result_queue@.len() <= pubs.len()
        &&& forall|i: int|
            0 <= i < self.result_queue@.len() ==> (#[trigger] self.result_queue@[i])@
                == pubs[self.drained_count() + i]
        &&& match self.collector.latest {
            None => self.drained_count() == 0,
            Some(r) => self.drained_count() >= 1 && r@ == pubs[self.drained_count() - 1],
        }
        &&& (self.cmd_open <==> self.daemon.phase is Idle)
    }

    /// Wire a fresh core over a fixed set of plugin locations: empty
    /// channels, an uninitialized collector, an idle daemon that has not
    /// yet run its priming scan.
    pub fn new(locations: Vec<String>) -> (s: System)
        ensures
            s.inv(),
            s.daemon.locations == locations,
            s.daemon.phase is Idle,
            !s.initialized(),
            s.cmd_queue@.len() == 0,
            s.collector.latest is None,
            s.cmd_open,
    {
        System {
            daemon: Daemon::new(locations),
            collector: ResponseCollector::new(),
            cmd_queue: Vec::new(),
            result_queue: Vec::new(),
            cmd_open: true,
            published: Ghost(Seq::empty()),
        }
    }

    /// One scan cycle of the daemon: run the scan over the per-location
    /// outcomes the scanner capability produced and publish the snapshot
    /// on the result channel.  Used unconditionally once at startup (the
    /// priming scan) and for each `Refresh` command thereafter.
    ///
    /// Publication appends: nothing already published is changed, so a
    /// snapshot a caller has seen is never rewritten.
    pub fn daemon_scan(&mut self, outcomes: Vec<Result<String, String>>)
        requires
            old(self).inv(),
            old(self).daemon.phase is Idle,
            outcomes@.len() == old(self).locs().len(),
            old(self).daemon.scans_done < u64::MAX,
        ensures
            final(self).inv(),
            final(self).published@.len() == old(self).published@.len() + 1,
            final(self).published@ == old(self).published@.push(final(self).published@.last()),
            final(self).published@.last().seq == old(self).published@.len() + 1,
            result_wf(final(self).published@.last(), old(self).locs()),
            forall|i: int|
                0 <= i < outcomes@.len() ==> (#[trigger] final(self).published@.last().entries[i]).outcome
                    == outcome_view(outcomes@[i]),
            (final(self).published@.last().success <==> exists|i: int|
                0 <= i < outcomes@.len() && outcomes@[i] is Ok),
            final(self).daemon.phase is Idle,
            final(self).daemon.locations == old(self).daemon.locations,
            final(self).collector == old(self).collector,
            final(self).cmd_queue == old(self).cmd_queue,
            final(self).cmd_open == old(self).cmd_open,
            final(self).result_queue@.len() == old(self).result_queue@.len() + 1,
            old(self).initialized() ==> final(self).initialized(),
    {
        let r = self.daemon.run_scan(outcomes);
        proof {
            self.published@ = self.published@.push(r@);
        }
        self.result_queue.push(r);
    }

    /// The daemon's serve step: consume the front command of the command
    /// channel (strict FIFO, no preemption).  On `Refresh` it scans and
    /// publishes, with `outcomes` the scanner capability's per-location
    /// results; on `Shutdown` it terminates and the command channel
    /// closes.  No other command is touched: nothing is lost.
    pub fn daemon_step(&mut self, outcomes: Vec<Result<String, String>>)
        requires
            old(self).inv(),
            old(self).daemon.phase is Idle,
            old(self).cmd_queue@.len() > 0,
            old(self).cmd_queue@[0] is Refresh ==> outcomes@.len() == old(self).locs().len()
                && old(self).daemon.scans_done < u64::MAX,
        ensures
            final(self).inv(),
            final(self).cmd_queue@ == old(self).cmd_queue@.subrange(
                1,
                old(self).cmd_queue@.len() as int,
            ),
            final(self).collector == old(self).collector,
            final(self).daemon.locations == old(self).daemon.locations,
            old(self).cmd_queue@[0] is Refresh ==> {
                &&& final(self).published@ == old(self).published@.push(
                    final(self).published@.last(),
                )
                &&& final(self).published@.last().seq == old(self).published@.len() + 1
                &&& result_wf(final(self).published@.last(), old(self).locs())
                &&& forall|i: int|
                    0 <= i < outcomes@.len()
                        ==> (#[trigger] final(self).published@.last().entries[i]).outcome
                        == outcome_view(outcomes@[i])
                &&& (final(self).published@.last().success <==> exists|i: int|
                    0 <= i < outcomes@.len() && outcomes@[i] is Ok)
                &&& final(self).daemon.phase is Idle
                &&& final(self).result_queue@.len() == old(self).result_queue@.len() + 1
            },
            old(self).cmd_queue@[0] is Shutdown ==> {
                &&& final(self).daemon.phase is Terminated
                &&& !final(self).cmd_open
                &&& final(self).published == old(self).published
                &&& final(self).result_queue == old(self).result_queue
            },
            old(self).initialized() ==> final(self).initialized(),
    {
        let cmd = self.cmd_queue.remove(0);
        match cmd {
            Command::Refresh => {
                self.daemon_scan(outcomes);
            },
            Command::Shutdown => {
                self.daemon.on_shutdown();
                self.cmd_open = false;
            },
        }
    }

    /// A caller's refresh trigger: enqueue a `Refresh` command without
    /// waiting for its result.  Succeeds and appends exactly one command
    /// while the channel is open (no trigger is ever lost); once the
    /// daemon has terminated it deterministically fails with
    /// `DaemonUnreachable`, changing nothing.  Never blocks on a scan.
    pub fn request_refresh(&mut self) -> (r: Result<(), CollectorError>)
        requires
            old(self).inv(),
        ensures
            final(self).inv(),
            final(self).daemon == old(self).daemon,
            final(self).collector == old(self).collector,
            final(self).result_queue == old(self).result_queue,
            final(self).published == old(self).published,
            final(self).cmd_open == old(self).cmd_open,
            old(self).cmd_open ==> r is Ok && final(self).cmd_queue@ == old(self).cmd_queue@.push(
                Command::Refresh,
            ),
            !old(self).cmd_open ==> r == Err::<(), CollectorError>(
                CollectorError::DaemonUnreachable,
            ) && final(self).cmd_queue == old(self).cmd_queue,
            old(self).initialized() ==> final(self).initialized(),
    {
        if self.cmd_open {
            self.cmd_queue.push(Command::Refresh);
        }
        ResponseCollector::refresh_outcome(self.cmd_open)
    }

    /// A caller's shutdown trigger: enqueue the terminal command.  Like a
    /// refresh trigger it is fire-and-forget and fails with
    /// `DaemonUnreachable` exactly when the channel is already closed.
    pub fn request_shutdown(&mut self) -> (r: Result<(), CollectorError>)
        requires
            old(self).inv(),
        ensures
            final(self).inv(),
            final(self).daemon == old(self).daemon,
            final(self).collector == old(self).collector,
            final(self).result_queue == old(self).result_queue,
            final(self).published == old(self).published,
            final(self).cmd_open == old(self).cmd_open,
            old(self).cmd_open ==> r is Ok && final(self).cmd_queue@ == old(self).cmd_queue@.push(
                Command::Shutdown,
            ),
            !old(self).cmd_open ==> r == Err::<(), CollectorError>(
                CollectorError::DaemonUnreachable,
            ) && final(self).cmd_queue == old(self).cmd_queue,
            old(self).initialized() ==> final(self).initialized(),
    {
        if self.cmd_open {
            self.cmd_queue.push(Command::Shutdown);
        }
        ResponseCollector::refresh_outcome(self.cmd_open)
    }

    /// A caller's query: drain every snapshot waiting on the result
    /// channel, keep the newest, and answer with a copy of the held one.
    ///
    /// The answer fails, with `Uninitialized`, exactly as long as no scan
    /// has ever been published.  A successful answer is always a whole
    /// published snapshot — the newest one, whose sequence number equals
    /// the number of scans completed so far — and is never older than any
    /// previously held answer.  The call never waits on the daemon.
    pub fn query_latest(&mut self) -> (r: Result<ScanResult, CollectorError>)
        requires
            old(self).inv(),
        ensures
            final(self).inv(),
            final(self).daemon == old(self).daemon,
            final(self).cmd_queue == old(self).cmd_queue,
            final(self).cmd_open == old(self).cmd_open,
            final(self).published == old(self).published,
            final(self).result_queue@.len() == 0,
            ((r is Err) <==> !old(self).initialized()),
            r is Err ==> r == Err::<ScanResult, CollectorError>(CollectorError::Uninitialized),
            r matches Ok(q) ==> q@ == final(self).published@.last()
                && q@.seq == final(self).published@.len(),
            old(self).collector.latest matches Some(p) ==> (r matches Ok(q) && q@.seq >= p@.seq),
            old(self).initialized() ==> final(self).initialized(),
    {
        let mut drained: Vec<ScanResult> = Vec::new();
        core::mem::swap(&mut drained, &mut self.result_queue);
        self.collector.query_latest(drained)
    }
}

/// Law: every published snapshot is complete.  Whatever the mix of
/// per-location successes and failures, a snapshot of a core configured
/// with N plugin locations holds exactly N per-plugin entries, in
/// configuration order and under the locations' identifiers; snapshots
/// are numbered consecutively from 1; and the overall flag is false
/// exactly when every entry failed.
pub proof fn lemma_every_snapshot_complete(s: System, k: int)
    requires
        s.inv(),
        0 <= k < s.published@.len(),
    ensures
        s.published@[k].entries.len() == s.locs().len(),
        s.published@[k].seq == k + 1,
        forall|i: int|
            0 <= i < s.locs().len() ==> (#[trigger] s.published@[k].entries[i]).id == s.locs()[i],
        (s.published@[k].success <==> exists|i: int|
            0 <= i < s.published@[k].entries.len() && (#[trigger] s.published@[k].entries[i]).outcome is Ok),
{
    assert(result_wf(s.published@[k], s.locs()));
}

/// Law: snapshots carry strictly increasing sequence numbers in
/// publication order, and the result channel holds a contiguous run of
/// the newest ones.  A caller therefore never observes results out of the
/// order in which the scans that produced them completed.
pub proof fn lemma_published_in_order(s: System, j: int, k: int)
    requires
        s.inv(),
        0 <= j < k < s.published@.len(),
    ensures
        s.published@[j].seq < s.published@[k].seq,
        s.published@.last().seq == s.daemon.scans_done,
{
}

} // verus!
