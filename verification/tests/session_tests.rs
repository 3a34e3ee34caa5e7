use health_check_cli::errors::HealthFailure;
use health_check_cli::errors::ProbeError;
use health_check_cli::report::exit_code;
use health_check_cli::report::status_line;
use health_check_cli::session::session_step;
use health_check_cli::session::SessionAction;
use health_check_cli::session::SessionEvent;
use health_check_cli::session::SessionParams;
use health_check_cli::session::SessionState;
use health_check_cli::session::Verdict;
use health_check_cli::snapshot::InstanceSnapshot;
use health_check_cli::snapshot::PeerInfo;
use health_check_cli::snapshot::PeerRoutePair;
use health_check_cli::snapshot::RouteFeatureFlags;
use health_check_cli::snapshot::RouteInfo;
use health_check_cli::snapshot::SummaryEntry;

fn run_session(
    params: &SessionParams,
    events: Vec<SessionEvent>,
) -> (SessionState, Vec<SessionAction>) {
    let mut state = SessionState::Launching;
    let mut actions = Vec::new();
    for event in events {
        let (next, action) = session_step(params, state, event);
        state = next;
        actions.push(action);
    }
    (state, actions)
}

fn teardowns(actions: &[SessionAction]) -> usize {
    actions.iter().filter(|a| matches!(a, SessionAction::TearDown)).count()
}

fn qualifying_pair(peer_id: u32) -> PeerRoutePair {
    PeerRoutePair {
        route: Some(RouteInfo {
            hostname: String::from("server-node"),
            feature_flags: Some(RouteFeatureFlags { is_public_server: false }),
        }),
        peer: Some(PeerInfo { peer_id, conn_count: 2 }),
    }
}

fn healthy_snapshot(summary: Option<Vec<SummaryEntry>>) -> InstanceSnapshot {
    InstanceSnapshot {
        running: true,
        error_msg: None,
        peer_route_pairs: vec![qualifying_pair(42)],
        foreign_network_summary: summary,
    }
}

fn erroring_snapshot() -> InstanceSnapshot {
    InstanceSnapshot {
        running: true,
        error_msg: Some(String::from("engine failure")),
        peer_route_pairs: vec![qualifying_pair(42)],
        foreign_network_summary: None,
    }
}

#[test]
fn scenario_startup_never_converges() {
    let params = SessionParams::from_timeout_secs(5);
    assert_eq!(params.deadline_ms, 5000);
    let mut events = vec![SessionEvent::LaunchSucceeded];
    for k in 0..6u64 {
        events.push(SessionEvent::Polled { elapsed_ms: k * 1000, snapshot: None });
    }
    let (state, actions) = run_session(&params, events);
    let outcome = match state {
        SessionState::Finished { outcome } => outcome,
        other => panic!("session still open: {:?}", other),
    };
    assert!(matches!(outcome, Err(ProbeError::StartupTimeout)));
    assert_eq!(teardowns(&actions), 1);
    assert_eq!(status_line(&outcome).as_str(), "0 0 0 0 0");
    assert_eq!(exit_code(&outcome), 1);
}

#[test]
fn scenario_qualifying_pair_with_summary() {
    let params = SessionParams::from_timeout_secs(30);
    let summary = vec![
        SummaryEntry { peer_id: 7, network_count: 9 },
        SummaryEntry { peer_id: 42, network_count: 3 },
    ];
    let events = vec![
        SessionEvent::LaunchSucceeded,
        SessionEvent::Polled { elapsed_ms: 100, snapshot: Some(healthy_snapshot(None)) },
        SessionEvent::Polled {
            elapsed_ms: 600,
            snapshot: Some(healthy_snapshot(Some(summary))),
        },
    ];
    let (state, actions) = run_session(&params, events);
    let outcome = match state {
        SessionState::Finished { outcome } => outcome,
        other => panic!("session still open: {:?}", other),
    };
    assert!(matches!(outcome, Ok(Verdict { online: true, connection_count: 3 })));
    assert_eq!(teardowns(&actions), 1);
    assert_eq!(status_line(&outcome).as_str(), "1 3 0 0 0");
    assert_eq!(exit_code(&outcome), 0);
}

#[test]
fn scenario_qualifying_pair_without_summary() {
    let params = SessionParams::from_timeout_secs(30);
    let events = vec![
        SessionEvent::LaunchSucceeded,
        SessionEvent::Polled { elapsed_ms: 100, snapshot: Some(healthy_snapshot(None)) },
        SessionEvent::Polled { elapsed_ms: 600, snapshot: Some(healthy_snapshot(None)) },
    ];
    let (state, actions) = run_session(&params, events);
    let outcome = match state {
        SessionState::Finished { outcome } => outcome,
        other => panic!("session still open: {:?}", other),
    };
    assert!(matches!(outcome, Ok(Verdict { online: true, connection_count: 0 })));
    assert_eq!(teardowns(&actions), 1);
    assert_eq!(status_line(&outcome).as_str(), "1 0 0 0 0");
    assert_eq!(exit_code(&outcome), 0);
}

#[test]
fn scenario_engine_error_until_deadline() {
    let params = SessionParams::from_timeout_secs(2);
    let mut events = vec![
        SessionEvent::LaunchSucceeded,
        SessionEvent::Polled { elapsed_ms: 0, snapshot: Some(erroring_snapshot()) },
    ];
    for k in 1..5u64 {
        events.push(SessionEvent::Polled {
            elapsed_ms: k * 500,
            snapshot: Some(erroring_snapshot()),
        });
    }
    let (state, actions) = run_session(&params, events);
    let outcome = match state {
        SessionState::Finished { outcome } => outcome,
        other => panic!("session still open: {:?}", other),
    };
    match &outcome {
        Err(ProbeError::HealthCheckTimeout { last_failure }) => match last_failure {
            Some(HealthFailure::EngineReportedError { message }) => {
                assert_eq!(message.as_str(), "engine failure");
            },
            other => panic!("unexpected last failure: {:?}", other),
        },
        other => panic!("unexpected outcome: {:?}", other),
    }
    assert_eq!(teardowns(&actions), 1);
    assert_eq!(status_line(&outcome).as_str(), "0 0 0 0 0");
    assert_eq!(exit_code(&outcome), 1);
}

#[test]
fn scenario_launch_fault_with_datalink_marker() {
    let params = SessionParams::from_timeout_secs(30);
    let events = vec![SessionEvent::LaunchPanicked {
        message: String::from("failure in pnet_datalink while probing"),
    }];
    let (state, actions) = run_session(&params, events);
    let outcome = match state {
        SessionState::Finished { outcome } => outcome,
        other => panic!("session still open: {:?}", other),
    };
    match &outcome {
        Err(ProbeError::InterfaceEnumerationFault { message }) => {
            assert_eq!(message.as_str(), "failure in pnet_datalink while probing");
        },
        other => panic!("unexpected outcome: {:?}", other),
    }
    assert_eq!(teardowns(&actions), 0);
    assert!(matches!(actions[0], SessionAction::Finish));
    assert_eq!(status_line(&outcome).as_str(), "0 0 0 0 0");
    assert_eq!(exit_code(&outcome), 1);
}

#[test]
fn launch_fault_without_marker_is_generic() {
    let params = SessionParams::from_timeout_secs(30);
    let events =
        vec![SessionEvent::LaunchPanicked { message: String::from("something else went wrong") }];
    let (state, _) = run_session(&params, events);
    match state {
        SessionState::Finished { outcome } => {
            assert!(matches!(outcome, Err(ProbeError::LaunchFault { .. })));
        },
        other => panic!("session still open: {:?}", other),
    }
}

#[test]
fn launch_fault_with_interface_marker() {
    let params = SessionParams::from_timeout_secs(30);
    let events = vec![SessionEvent::LaunchPanicked {
        message: String::from("Unable to get interface list"),
    }];
    let (state, _) = run_session(&params, events);
    match state {
        SessionState::Finished { outcome } => {
            assert!(matches!(outcome, Err(ProbeError::InterfaceEnumerationFault { .. })));
        },
        other => panic!("session still open: {:?}", other),
    }
}

#[test]
fn launch_error_tears_nothing_down() {
    let params = SessionParams::from_timeout_secs(30);
    let events = vec![SessionEvent::LaunchFailed { message: String::from("no route to server") }];
    let (state, actions) = run_session(&params, events);
    match state {
        SessionState::Finished { outcome } => {
            assert!(matches!(outcome, Err(ProbeError::LaunchError { .. })));
        },
        other => panic!("session still open: {:?}", other),
    }
    assert_eq!(teardowns(&actions), 0);
}

#[test]
fn startup_wait_counts_against_overall_deadline() {
    // The startup wait shares the overall budget: a snapshot that first
    // appears after the deadline leaves no time for a health check.
    let params = SessionParams::from_timeout_secs(3);
    let events = vec![
        SessionEvent::LaunchSucceeded,
        SessionEvent::Polled { elapsed_ms: 0, snapshot: None },
        SessionEvent::Polled { elapsed_ms: 3000, snapshot: Some(healthy_snapshot(None)) },
    ];
    let (state, actions) = run_session(&params, events);
    match state {
        SessionState::Finished { outcome } => {
            assert!(matches!(
                outcome,
                Err(ProbeError::HealthCheckTimeout { last_failure: None })
            ));
        },
        other => panic!("session still open: {:?}", other),
    }
    assert_eq!(teardowns(&actions), 1);
}

#[test]
fn finished_session_is_inert() {
    let params = SessionParams::from_timeout_secs(5);
    let mut events = vec![SessionEvent::LaunchSucceeded];
    for k in 0..10u64 {
        events.push(SessionEvent::Polled { elapsed_ms: k * 1000, snapshot: None });
    }
    let (state, actions) = run_session(&params, events);
    assert!(matches!(state, SessionState::Finished { .. }));
    // one teardown at the timeout, then only Finish
    assert_eq!(teardowns(&actions), 1);
    assert!(actions[7..].iter().all(|a| matches!(a, SessionAction::Finish)));
}

#[test]
fn deadline_in_milliseconds_saturates() {
    let params = SessionParams::from_timeout_secs(u64::MAX / 500);
    assert_eq!(params.deadline_ms, u64::MAX);
}
