//! End-to-end scenarios over the wired core: callers triggering refreshes
//! and querying while the daemon consumes commands and publishes
//! snapshots.  Refresh and query are deliberately decoupled
//! (fire-and-forget): a caller observes the effect of a refresh only
//! through a later query.

use ept_core::protocol::CollectorError;
use ept_core::system::System;

fn locations() -> Vec<String> {
    vec![
        String::from("alpha.plugin"),
        String::from("beta.plugin"),
        String::from("gamma.plugin"),
    ]
}

fn all_ok() -> Vec<Result<String, String>> {
    vec![
        Ok(String::from("fp-a")),
        Ok(String::from("fp-b")),
        Ok(String::from("fp-c")),
    ]
}

#[test]
fn uninitialized_before_first_scan_and_never_after() {
    let mut s = System::new(locations());
    assert!(matches!(s.query_latest(), Err(CollectorError::Uninitialized)));
    assert!(matches!(s.query_latest(), Err(CollectorError::Uninitialized)));
    s.daemon_scan(all_ok());
    assert!(s.query_latest().is_ok());
    assert!(s.query_latest().is_ok());
    s.daemon_scan(all_ok());
    assert!(s.query_latest().is_ok());
}

#[test]
fn priming_scan_with_unreadable_location() {
    let mut s = System::new(locations());
    s.daemon_scan(vec![
        Ok(String::from("fp-a")),
        Err(String::from("location unreadable")),
        Ok(String::from("fp-c")),
    ]);
    let r = s.query_latest().unwrap();
    assert_eq!(r.entries.len(), 3);
    assert_eq!(r.entries[0].id, "alpha.plugin");
    assert_eq!(r.entries[1].id, "beta.plugin");
    assert_eq!(r.entries[2].id, "gamma.plugin");
    assert!(matches!(&r.entries[0].outcome, Ok(h) if h == "fp-a"));
    assert!(matches!(&r.entries[1].outcome, Err(n) if n == "location unreadable"));
    assert!(matches!(&r.entries[2].outcome, Ok(h) if h == "fp-c"));
    assert!(r.success);
    assert_eq!(r.seq, 1);
}

#[test]
fn refresh_twice_before_first_scan_completes() {
    let mut s = System::new(locations());
    assert_eq!(s.request_refresh(), Ok(()));
    assert_eq!(s.request_refresh(), Ok(()));
    assert_eq!(s.cmd_queue.len(), 2);
    s.daemon_step(all_ok());
    s.daemon_step(vec![
        Ok(String::from("fp-a2")),
        Ok(String::from("fp-b2")),
        Ok(String::from("fp-c2")),
    ]);
    assert_eq!(s.cmd_queue.len(), 0);
    let r = s.query_latest().unwrap();
    assert_eq!(r.seq, 2);
    assert!(matches!(&r.entries[0].outcome, Ok(h) if h == "fp-a2"));
    assert!(matches!(&r.entries[2].outcome, Ok(h) if h == "fp-c2"));
}

#[test]
fn refresh_after_daemon_terminated() {
    let mut s = System::new(locations());
    s.daemon_scan(all_ok());
    assert_eq!(s.request_shutdown(), Ok(()));
    s.daemon_step(all_ok());
    assert_eq!(
        s.request_refresh(),
        Err(CollectorError::DaemonUnreachable)
    );
    assert_eq!(
        s.request_refresh(),
        Err(CollectorError::DaemonUnreachable)
    );
    let r = s.query_latest().unwrap();
    assert_eq!(r.seq, 1);
}

#[test]
fn sequence_numbers_monotonic() {
    let mut s = System::new(locations());
    s.daemon_scan(all_ok());
    let mut last_seen: u64 = 0;
    let mut round: u64 = 1;
    while round <= 4 {
        let r = s.query_latest().unwrap();
        assert!(r.seq >= last_seen);
        assert_eq!(r.seq, round);
        last_seen = r.seq;
        assert_eq!(s.request_refresh(), Ok(()));
        s.daemon_step(all_ok());
        round += 1;
    }
    let r = s.query_latest().unwrap();
    assert_eq!(r.seq, 5);
    assert!(r.seq >= last_seen);
}

#[test]
fn success_flag_false_exactly_when_every_location_fails() {
    let mut s = System::new(locations());
    s.daemon_scan(vec![
        Err(String::from("e1")),
        Err(String::from("e2")),
        Err(String::from("e3")),
    ]);
    let r = s.query_latest().unwrap();
    assert_eq!(r.entries.len(), 3);
    assert!(!r.success);
    s.daemon_scan(vec![
        Err(String::from("e1")),
        Ok(String::from("fp-b")),
        Err(String::from("e3")),
    ]);
    let r = s.query_latest().unwrap();
    assert_eq!(r.entries.len(), 3);
    assert!(r.success);
}

#[test]
fn empty_configuration_yields_empty_failed_snapshot() {
    let mut s = System::new(Vec::new());
    s.daemon_scan(Vec::new());
    let r = s.query_latest().unwrap();
    assert_eq!(r.entries.len(), 0);
    assert!(!r.success);
    assert_eq!(r.seq, 1);
}

#[test]
fn query_skips_stale_pending_snapshots() {
    let mut s = System::new(locations());
    s.daemon_scan(all_ok());
    assert_eq!(s.request_refresh(), Ok(()));
    assert_eq!(s.request_refresh(), Ok(()));
    s.daemon_step(all_ok());
    s.daemon_step(vec![
        Ok(String::from("fp-a3")),
        Ok(String::from("fp-b3")),
        Ok(String::from("fp-c3")),
    ]);
    let r = s.query_latest().unwrap();
    assert_eq!(r.seq, 3);
    assert!(matches!(&r.entries[1].outcome, Ok(h) if h == "fp-b3"));
}
