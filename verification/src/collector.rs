//! The response collector: the synchronous-facing bridge that hides the
//! asynchronous daemon behind simple query/trigger calls.
//!
//! Callers hand it whatever snapshots have been drained from the result
//! channel; it keeps only the most recent (monotonic replacement, no
//! merging) and answers queries from that held snapshot without ever
//! waiting on the daemon.

use crate::protocol::{CollectorError, ResultModel, ScanResult};
use vstd::prelude::*;

verus! {

/// State held by the response collector.
pub struct ResponseCollector {
    /// The most recent snapshot received; absent before the first scan
    /// result arrives.
    pub latest: Option<ScanResult>,
}

impl ResponseCollector {
    /// Ghost model of the held snapshot.
    pub open spec fn latest_model(&self) -> Option<ResultModel> {
        match self.latest {
            Some(r) => Some(r@),
            None => None,
        }
    }

    /// Construct a collector that has not yet received any result.
    pub fn new() -> (c: ResponseCollector)
        ensures
            c.latest is None,
    {
        ResponseCollector { latest: None }
    }

    /// Absorb the snapshots drained from the result channel, oldest
    /// first.  Only the most recent is kept: newer results always replace
    /// older ones, and a held result is never dropped for nothing.
    pub fn absorb(&mut self, drained: Vec<ScanResult>)
        ensures
            drained@.len() == 0 ==> final(self).latest == old(self).latest,
            drained@.len() > 0 ==> final(self).latest_model() == Some(drained@.last()@),
            (final(self).latest is Some <==> (old(self).latest is Some || drained@.len() > 0)),
    {
        if drained.len() > 0 {
            let newest = &drained[drained.len() - 1];
            self.latest = Some(newest.clone());
        }
    }

    /// Drain-and-replace, then answer: absorb whatever snapshots have
    /// arrived and return a copy of the held one.  Fails with
    /// `Uninitialized` exactly when no result has ever been received.
    /// This call never waits on the daemon.
    pub fn query_latest(&mut self, drained: Vec<ScanResult>) -> (r: Result<
        ScanResult,
        CollectorError,
    >)
        ensures
            ((r is Err) <==> (old(self).latest is None && drained@.len() == 0)),
            r is Err ==> r == Err::<ScanResult, CollectorError>(CollectorError::Uninitialized)
                && final(self).latest is None,
            drained@.len() > 0 ==> (r matches Ok(q) && q@ == drained@.last()@)
                && final(self).latest_model() == Some(drained@.last()@),
            drained@.len() == 0 && old(self).latest is Some ==> final(self).latest
                == old(self).latest && (r matches Ok(q) && Some(q@) == old(self).latest_model()),
    {
        self.absorb(drained);
        match &self.latest {
            Some(res) => Ok(res.clone()),
            None => Err(CollectorError::Uninitialized),
        }
    }

    /// Translate the fate of a `Refresh` command into the caller's
    /// answer: a command that could not be handed over (`sent` false, the
    /// command channel is closed) means the daemon has terminated.  The
    /// trigger is fire-and-forget: success carries no payload.
    pub fn refresh_outcome(sent: bool) -> (r: Result<(), CollectorError>)
        ensures
            sent <==> r is Ok,
            !sent ==> r == Err::<(), CollectorError>(CollectorError::DaemonUnreachable),
    {
        if sent {
            Ok(())
        } else {
            Err(CollectorError::DaemonUnreachable)
        }
    }
}

} // verus!
