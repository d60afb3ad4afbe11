//! Component-level tests of the daemon and the response collector taken
//! on their own, each fed plain values in place of its channel ends.

use ept_core::collector::ResponseCollector;
use ept_core::daemon::{Daemon, DaemonPhase};
use ept_core::protocol::{CollectorError, PluginEntry, ScanResult};

fn two_locations() -> Vec<String> {
    vec![String::from("first"), String::from("second")]
}

#[test]
fn run_scan_builds_complete_snapshot() {
    let mut d = Daemon::new(two_locations());
    let r = d.run_scan(vec![Err(String::from("broken")), Err(String::from("gone"))]);
    assert_eq!(r.entries.len(), 2);
    assert_eq!(r.entries[0].id, "first");
    assert_eq!(r.entries[1].id, "second");
    assert!(matches!(&r.entries[0].outcome, Err(n) if n == "broken"));
    assert!(matches!(&r.entries[1].outcome, Err(n) if n == "gone"));
    assert!(!r.success);
    assert_eq!(r.seq, 1);
    assert_eq!(d.phase, DaemonPhase::Idle);

    let r2 = d.run_scan(vec![Ok(String::from("fp-1")), Err(String::from("gone"))]);
    assert_eq!(r2.seq, 2);
    assert!(r2.success);
    assert_eq!(d.scans_done, 2);
}

#[test]
fn shutdown_is_terminal() {
    let mut d = Daemon::new(two_locations());
    assert_eq!(d.phase, DaemonPhase::Idle);
    d.on_shutdown();
    assert_eq!(d.phase, DaemonPhase::Terminated);
    assert_eq!(d.scans_done, 0);
}

fn snapshot(seq: u64) -> ScanResult {
    ScanResult {
        entries: vec![PluginEntry {
            id: String::from("first"),
            outcome: Ok(format!("fp-{}", seq)),
        }],
        seq,
        success: true,
    }
}

#[test]
fn collector_keeps_only_most_recent() {
    let mut c = ResponseCollector::new();
    let r = c.query_latest(vec![snapshot(1), snapshot(2), snapshot(3)]).unwrap();
    assert_eq!(r.seq, 3);
    assert!(matches!(&r.entries[0].outcome, Ok(h) if h == "fp-3"));
    let again = c.query_latest(Vec::new()).unwrap();
    assert_eq!(again.seq, 3);
}

#[test]
fn collector_uninitialized_until_first_result() {
    let mut c = ResponseCollector::new();
    assert!(matches!(c.query_latest(Vec::new()), Err(CollectorError::Uninitialized)));
    assert!(matches!(c.query_latest(Vec::new()), Err(CollectorError::Uninitialized)));
    assert!(c.query_latest(vec![snapshot(1)]).is_ok());
    assert!(c.query_latest(Vec::new()).is_ok());
}

#[test]
fn refresh_outcome_maps_closed_channel() {
    assert_eq!(ResponseCollector::refresh_outcome(true), Ok(()));
    assert_eq!(
        ResponseCollector::refresh_outcome(false),
        Err(CollectorError::DaemonUnreachable)
    );
}

#[test]
fn scan_result_clone_is_deep() {
    let r = snapshot(7);
    let c = r.clone();
    assert_eq!(c.seq, 7);
    assert_eq!(c.success, r.success);
    assert_eq!(c.entries.len(), 1);
    assert_eq!(c.entries[0].id, r.entries[0].id);
    assert!(matches!(&c.entries[0].outcome, Ok(h) if h == "fp-7"));
}
