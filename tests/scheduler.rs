use rustlet::{
    connection_outcome, drop_succeeded, http_outcome, resolution_outcome, Action, CheckError,
    ConfigError, FailureKind, HttpObservation, LogLevel, Phase, RunConfig, Scheduler,
    EXIT_ALL_PASSED, EXIT_INTERRUPTED,
};

fn strings(v: &[&str]) -> Vec<String> {
    v.iter().map(|s| s.to_string()).collect()
}

fn scheduler(interval: u64, tcp: &[&str], http: &[&str]) -> Scheduler {
    let config = RunConfig::new(LogLevel::Info, interval, 1, strings(tcp), strings(http)).unwrap();
    Scheduler::new(config)
}

fn refused(addr: &str) -> Result<(), CheckError> {
    connection_outcome(addr, Err("Connection refused".to_string()))
}

#[test]
fn level_names() {
    assert_eq!(LogLevel::from_name("debug"), LogLevel::Debug);
    assert_eq!(LogLevel::from_name("info"), LogLevel::Info);
    assert_eq!(LogLevel::from_name("warn"), LogLevel::Warn);
    assert_eq!(LogLevel::from_name("error"), LogLevel::Error);
    assert_eq!(LogLevel::from_name("trace"), LogLevel::Trace);
    assert_eq!(LogLevel::from_name("DEBUG"), LogLevel::Info);
    assert_eq!(LogLevel::from_name(""), LogLevel::Info);
}

#[test]
fn config_bounds() {
    assert!(RunConfig::new(LogLevel::Info, 1, 1, vec![], vec![]).is_ok());
    assert!(RunConfig::new(LogLevel::Info, 300, 60, vec![], vec![]).is_ok());
    assert_eq!(
        RunConfig::new(LogLevel::Info, 0, 10, vec![], vec![]).err(),
        Some(ConfigError::IntervalOutOfRange(0))
    );
    assert_eq!(
        RunConfig::new(LogLevel::Info, 301, 61, vec![], vec![]).err(),
        Some(ConfigError::IntervalOutOfRange(301))
    );
    assert_eq!(
        RunConfig::new(LogLevel::Info, 5, 0, vec![], vec![]).err(),
        Some(ConfigError::TimeoutOutOfRange(0))
    );
    assert_eq!(
        RunConfig::new(LogLevel::Info, 5, 61, vec![], vec![]).err(),
        Some(ConfigError::TimeoutOutOfRange(61))
    );
}

#[test]
fn drop_succeeded_keeps_failures_in_order() {
    let mut v = strings(&["a", "b", "c", "d"]);
    let outcomes = vec![Ok(()), refused("b"), Ok(()), refused("d")];
    drop_succeeded(&mut v, &outcomes);
    assert_eq!(v, strings(&["b", "d"]));
}

#[test]
fn drop_succeeded_duplicates_are_separate_entries() {
    let mut v = strings(&["a", "a"]);
    let outcomes = vec![Ok(()), refused("a")];
    drop_succeeded(&mut v, &outcomes);
    assert_eq!(v, strings(&["a"]));
}

#[test]
fn empty_work_set_exits_zero_without_probing() {
    let mut s = scheduler(5, &[], &[]);
    assert_eq!(s.begin_iteration(false), Action::Exit(EXIT_ALL_PASSED));
    assert_eq!(s.phase(), Phase::Draining);
    let mut s = scheduler(5, &[], &[]);
    assert_eq!(s.begin_iteration(true), Action::Exit(EXIT_ALL_PASSED));
}

#[test]
fn shutdown_at_boundary_exits_130() {
    let mut s = scheduler(5, &["a:1"], &["http://b/"]);
    assert_eq!(s.begin_iteration(false), Action::ProbeAll);
    let tcp = vec![refused("a:1")];
    let http = vec![http_outcome("http://b/", HttpObservation::Status(500, Some("Internal Server Error".to_string())))];
    assert_eq!(s.finish_iteration(&tcp, &http), Action::Sleep(5));
    assert_eq!(s.begin_iteration(true), Action::Exit(EXIT_INTERRUPTED));
    assert_eq!(s.phase(), Phase::Terminated);
    assert_eq!(s.remaining_counts(), (1, 1));
}

#[test]
fn unreachable_set_never_drains() {
    let mut s = scheduler(2, &["a:1", "b:2"], &[]);
    for _ in 0..4 {
        assert_eq!(s.begin_iteration(false), Action::ProbeAll);
        let tcp = vec![refused("a:1"), refused("b:2")];
        assert_eq!(s.finish_iteration(&tcp, &vec![]), Action::Sleep(2));
        assert_eq!(s.remaining_counts(), (2, 0));
        assert!(!s.is_empty());
    }
}

#[test]
fn endpoint_removed_after_nth_attempt() {
    let mut s = scheduler(1, &["a:1"], &[]);
    for _ in 0..2 {
        assert_eq!(s.begin_iteration(false), Action::ProbeAll);
        assert_eq!(s.finish_iteration(&vec![refused("a:1")], &vec![]), Action::Sleep(1));
        assert_eq!(s.pending_tcp(), &strings(&["a:1"]));
    }
    assert_eq!(s.begin_iteration(false), Action::ProbeAll);
    assert_eq!(s.finish_iteration(&vec![Ok(())], &vec![]), Action::Exit(EXIT_ALL_PASSED));
    assert!(s.pending_tcp().is_empty());
    assert_eq!(s.phase(), Phase::Draining);
}

#[test]
fn mixed_pass_drops_only_successes() {
    let mut s = scheduler(3, &["a:1", "b:2"], &["http://x/", "http://y/"]);
    assert_eq!(s.begin_iteration(false), Action::ProbeAll);
    let tcp = vec![Ok(()), refused("b:2")];
    let http = vec![
        http_outcome("http://x/", HttpObservation::Status(404, Some("Not Found".to_string()))),
        http_outcome("http://y/", HttpObservation::Status(200, Some("OK".to_string()))),
    ];
    assert_eq!(s.finish_iteration(&tcp, &http), Action::Sleep(3));
    assert_eq!(s.pending_tcp(), &strings(&["b:2"]));
    assert_eq!(s.pending_http(), &strings(&["http://x/"]));
    assert_eq!(s.interval_secs(), 3);
    assert_eq!(s.timeout_secs(), 1);
}

#[test]
fn closed_port_stays_pending_and_is_retried() {
    let mut s = scheduler(1, &["127.0.0.1:1"], &[]);
    assert_eq!(s.begin_iteration(false), Action::ProbeAll);
    let addr = s.pending_tcp()[0].clone();
    assert!(resolution_outcome(&addr, Ok(1)).is_ok());
    let r = refused(&addr);
    assert_eq!(r.as_ref().err().map(|e| e.kind()), Some(FailureKind::ConnectionFailed));
    assert_eq!(s.finish_iteration(&vec![r], &vec![]), Action::Sleep(1));
    assert_eq!(s.pending_tcp(), &strings(&["127.0.0.1:1"]));
    assert_eq!(s.begin_iteration(false), Action::ProbeAll);
    assert_eq!(s.pending_tcp(), &strings(&["127.0.0.1:1"]));
}

#[test]
fn unresolvable_url_fails_every_iteration() {
    let url = "http://example.invalid/";
    let mut s = scheduler(5, &[], &[url]);
    for _ in 0..3 {
        assert_eq!(s.begin_iteration(false), Action::ProbeAll);
        let r = http_outcome(url, HttpObservation::TransportFailed("dns error".to_string()));
        assert_eq!(r.as_ref().err().map(|e| e.kind()), Some(FailureKind::RequestFailed));
        assert_eq!(s.finish_iteration(&vec![], &vec![r]), Action::Sleep(5));
        assert_eq!(s.remaining_counts(), (0, 1));
    }
    assert_eq!(s.begin_iteration(true), Action::Exit(EXIT_INTERRUPTED));
}
