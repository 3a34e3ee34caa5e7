//! The probe session as a state machine.
//!
//! One session launches an ephemeral instance, waits for it to come up
//! within a bounded time, then polls its snapshot against the
//! qualification rule until a verdict is reached or the time budget runs
//! out, asking for a single teardown whichever way it ends.
//!
//! The machine decides; the unverified shell performs the actions it asks
//! for (the engine's start, query and delete calls, and the sleeps) and
//! hands back the resulting events together with the elapsed wall-clock
//! time.

use vstd::prelude::*;

use crate::errors::HealthFailure;
use crate::errors::ProbeError;
use crate::health::health_verdict;
use crate::health::test_node_healthy;
use crate::text::contains_seq;
use crate::text::contains_substr;

verus! {

/// No session waits for startup convergence longer than this, in
/// milliseconds.
pub const STARTUP_CEILING_MS: u64 = 30000;

/// The sleep between two startup polls, in milliseconds.
pub const STARTUP_POLL_MS: u64 = 1000;

/// The sleep between two health-evaluation attempts, in milliseconds.
pub const HEALTH_POLL_MS: u64 = 500;

/// The final online/offline result of one probe session.
#[derive(Clone, Copy, Debug, PartialEq, Eq, Structural)]
pub struct Verdict {
    pub online: bool,
    pub connection_count: u32,
}

/// The fixed timing of one session.
#[derive(Clone, Copy, Debug, PartialEq, Eq, Structural)]
pub struct SessionParams {
    /// The overall deadline, in milliseconds of elapsed time.
    pub deadline_ms: u64,
}

impl SessionParams {
    /// How long a session may wait for startup: its own deadline, capped by
    /// the ceiling.
    pub open spec fn startup_limit(self) -> u64 {
        if self.deadline_ms < STARTUP_CEILING_MS {
            self.deadline_ms
        } else {
            STARTUP_CEILING_MS
        }
    }

    /// Builds the timing of a session from its timeout in seconds; a
    /// timeout too large for the millisecond scale saturates.
    pub fn from_timeout_secs(timeout_secs: u64) -> (r: SessionParams)
        ensures
            r.deadline_ms == if timeout_secs <= u64::MAX as int / 1000 {
                timeout_secs * 1000
            } else {
                u64::MAX as int
            },
    {
        if timeout_secs <= u64::MAX / 1000 {
            SessionParams { deadline_ms: timeout_secs * 1000 }
        } else {
            SessionParams { deadline_ms: u64::MAX }
        }
    }
}

/// Where one session stands.
#[derive(Debug)]
pub enum SessionState {
    /// The configuration is built; the engine's start call has not returned.
    Launching,
    /// The instance is live; no snapshot has been observed yet.
    AwaitingStartup,
    /// The instance is live and has produced a snapshot at least once; the
    /// evaluator is polling, keeping the last failure it observed.
    CheckingHealth { last_failure: Option<HealthFailure> },
    /// The session is over; nothing further happens.
    Finished { outcome: Result<Verdict, ProbeError> },
}

/// What the shell observed while performing the pending action.
#[derive(Debug)]
pub enum SessionEvent {
    /// The engine's start call returned a handle.
    LaunchSucceeded,
    /// The engine's start call returned an ordinary error.
    LaunchFailed { message: String },
    /// The engine's start call raised an abrupt fault, caught at the
    /// fault-isolation boundary.
    LaunchPanicked { message: String },
    /// One snapshot query came back, at the given elapsed wall-clock time.
    Polled { elapsed_ms: u64, snapshot: Option<crate::snapshot::InstanceSnapshot> },
}

/// What the shell must do next.
#[derive(Clone, Copy, Debug, PartialEq, Eq, Structural)]
pub enum SessionAction {
    /// Call the engine's start entry point inside the fault-isolation
    /// boundary.
    Launch,
    /// Sleep for the given time, then query the snapshot.
    PollAfter { delay_ms: u64 },
    /// Issue the teardown call for the instance; the session is over.
    TearDown,
    /// The session is over; no instance was ever acquired.
    Finish,
}

/// Whether an abrupt fault's message names an interface-enumeration or
/// datalink failure.
pub open spec fn is_interface_fault_msg(m: Seq<char>) -> bool {
    contains_seq(m, "interface"@) || contains_seq(m, "pnet_datalink"@)
}

/// The terminal error for an abrupt launch fault with the given message.
pub open spec fn launch_fault_error(message: String) -> ProbeError {
    if is_interface_fault_msg(message@) {
        ProbeError::InterfaceEnumerationFault { message }
    } else {
        ProbeError::LaunchFault { message }
    }
}

/// The transition of one session step: from the current state and the
/// observed event to the next state and the pending action.
pub open spec fn spec_step(params: SessionParams, state: SessionState, event: SessionEvent) -> (
    SessionState,
    SessionAction,
) {
    match state {
        SessionState::Launching => match event {
            SessionEvent::LaunchSucceeded => (
                SessionState::AwaitingStartup,
                SessionAction::PollAfter { delay_ms: 0 },
            ),
            SessionEvent::LaunchFailed { message } => (
                SessionState::Finished { outcome: Err(ProbeError::LaunchError { message }) },
                SessionAction::Finish,
            ),
            SessionEvent::LaunchPanicked { message } => (
                SessionState::Finished { outcome: Err(launch_fault_error(message)) },
                SessionAction::Finish,
            ),
            SessionEvent::Polled { .. } => (SessionState::Launching, SessionAction::Launch),
        },
        SessionState::AwaitingStartup => match event {
            SessionEvent::Polled { elapsed_ms, snapshot } => {
                if snapshot is Some {
                    if elapsed_ms < params.deadline_ms {
                        (
                            SessionState::CheckingHealth { last_failure: None },
                            SessionAction::PollAfter { delay_ms: 0 },
                        )
                    } else {
                        (
                            SessionState::Finished {
                                outcome: Err(ProbeError::HealthCheckTimeout { last_failure: None }),
                            },
                            SessionAction::TearDown,
                        )
                    }
                } else {
                    if elapsed_ms < params.startup_limit() {
                        (
                            SessionState::AwaitingStartup,
                            SessionAction::PollAfter { delay_ms: STARTUP_POLL_MS },
                        )
                    } else {
                        (
                            SessionState::Finished { outcome: Err(ProbeError::StartupTimeout) },
                            SessionAction::TearDown,
                        )
                    }
                }
            },
            _ => (SessionState::AwaitingStartup, SessionAction::PollAfter { delay_ms: 0 }),
        },
        SessionState::CheckingHealth { last_failure } => match event {
            SessionEvent::Polled { elapsed_ms, snapshot } => {
                if elapsed_ms >= params.deadline_ms {
                    (
                        SessionState::Finished {
                            outcome: Err(ProbeError::HealthCheckTimeout { last_failure }),
                        },
                        SessionAction::TearDown,
                    )
                } else {
                    match health_verdict(snapshot) {
                        Ok(count) => (
                            SessionState::Finished {
                                outcome: Ok(Verdict { online: true, connection_count: count }),
                            },
                            SessionAction::TearDown,
                        ),
                        Err(failure) => (
                            SessionState::CheckingHealth { last_failure: Some(failure) },
                            SessionAction::PollAfter { delay_ms: HEALTH_POLL_MS },
                        ),
                    }
                }
            },
            _ => (
                SessionState::CheckingHealth { last_failure },
                SessionAction::PollAfter { delay_ms: 0 },
            ),
        },
        SessionState::Finished { outcome } => (
            SessionState::Finished { outcome },
            SessionAction::Finish,
        ),
    }
}

/// The state after one step.
pub open spec fn step_state(params: SessionParams, s: SessionState, e: SessionEvent) -> SessionState {
    spec_step(params, s, e).0
}

/// The action of one step.
pub open spec fn step_action(params: SessionParams, s: SessionState, e: SessionEvent) -> SessionAction {
    spec_step(params, s, e).1
}

/// The state a session reaches from `s` after the whole event sequence.
pub open spec fn run_state(params: SessionParams, s: SessionState, events: Seq<SessionEvent>) -> SessionState
    decreases events.len(),
{
    if events.len() == 0 {
        s
    } else {
        run_state(params, step_state(params, s, events[0]), events.drop_first())
    }
}

/// How many teardown calls the machine asks for along the event sequence.
pub open spec fn teardown_count(
    params: SessionParams,
    s: SessionState,
    events: Seq<SessionEvent>,
) -> nat
    decreases events.len(),
{
    if events.len() == 0 {
        0
    } else {
        (if step_action(params, s, events[0]) is TearDown {
            1nat
        } else {
            0nat
        }) + teardown_count(params, step_state(params, s, events[0]), events.drop_first())
    }
}

/// The instance is live: acquired by a successful launch, not yet torn
/// down.
pub open spec fn instance_live(s: SessionState) -> bool {
    s is AwaitingStartup || s is CheckingHealth
}

/// The session holds a live instance at some point along the event
/// sequence.
pub open spec fn acquires_instance(
    params: SessionParams,
    s: SessionState,
    events: Seq<SessionEvent>,
) -> bool
    decreases events.len(),
{
    instance_live(s) || (events.len() > 0 && acquires_instance(
        params,
        step_state(params, s, events[0]),
        events.drop_first(),
    ))
}

/// Law: a session that ends issues its teardown call exactly once —
/// whichever component produced the final outcome — and a session that
/// never acquired an instance, or has not ended yet, issues none. A
/// finished session is inert: no event moves it or makes it ask for
/// anything further.
pub proof fn lemma_teardown_exactly_once(
    params: SessionParams,
    s: SessionState,
    events: Seq<SessionEvent>,
)
    ensures
        teardown_count(params, s, events) == if acquires_instance(params, s, events) && run_state(
            params,
            s,
            events,
        ) is Finished {
            1nat
        } else {
            0nat
        },
        s is Finished ==> run_state(params, s, events) == s,
        s is Finished ==> !acquires_instance(params, s, events),
    decreases events.len(),
{
    if events.len() > 0 {
        let s1 = step_state(params, s, events[0]);
        lemma_teardown_exactly_once(params, s1, events.drop_first());
    }
}

/// A poll event that brought no snapshot back.
pub open spec fn is_empty_poll(e: SessionEvent) -> bool {
    match e {
        SessionEvent::Polled { elapsed_ms: _, snapshot } => snapshot is None,
        _ => false,
    }
}

/// The elapsed time a poll event carries.
pub open spec fn poll_time(e: SessionEvent) -> u64 {
    match e {
        SessionEvent::Polled { elapsed_ms, snapshot: _ } => elapsed_ms,
        _ => 0,
    }
}

/// Law: where no query ever brings a snapshot back and the startup bound
/// is reached, the session ends in `StartupTimeout` and still asks for its
/// one teardown.
pub proof fn lemma_startup_timeout(params: SessionParams, events: Seq<SessionEvent>)
    requires
        forall|j: int| 0 <= j < events.len() ==> is_empty_poll(#[trigger] events[j]),
        exists|j: int|
            0 <= j < events.len() && poll_time(#[trigger] events[j]) >= params.startup_limit(),
    ensures
        run_state(params, SessionState::AwaitingStartup, events) == (SessionState::Finished {
            outcome: Err(ProbeError::StartupTimeout),
        }),
        teardown_count(params, SessionState::AwaitingStartup, events) == 1,
    decreases events.len(),
{
    let e0 = events[0];
    let rest = events.drop_first();
    let s0 = SessionState::AwaitingStartup;
    let s1 = step_state(params, s0, e0);
    if poll_time(e0) >= params.startup_limit() {
        assert(s1 == (SessionState::Finished { outcome: Err(ProbeError::StartupTimeout) }));
        lemma_teardown_exactly_once(params, s1, rest);
        lemma_teardown_exactly_once(params, s0, events);
    } else {
        assert(s1 == s0);
        let j = choose|j: int|
            0 <= j < events.len() && poll_time(#[trigger] events[j]) >= params.startup_limit();
        assert(j >= 1);
        assert(rest[j - 1] == events[j]);
        lemma_startup_timeout(params, rest);
    }
}

/// No pair of the polled snapshot qualifies — each one is a public relay,
/// the probe itself, or without an active connection — or the snapshot is
/// absent; a launch event carries no snapshot at all.
pub open spec fn event_cannot_certify(e: SessionEvent) -> bool {
    match e {
        SessionEvent::Polled { elapsed_ms: _, snapshot } => match snapshot {
            Some(s) => !crate::health::has_qualifying(s.peer_route_pairs@),
            None => true,
        },
        _ => true,
    }
}

/// The session ended with a positive verdict.
pub open spec fn online_outcome(s: SessionState) -> bool {
    match s {
        SessionState::Finished { outcome } => outcome is Ok,
        _ => false,
    }
}

/// Law: where no polled snapshot ever holds a qualifying pair, the session
/// cannot end online — whatever connections its relays or the probe itself
/// report.
pub proof fn lemma_never_online_without_qualifying_peer(
    params: SessionParams,
    s: SessionState,
    events: Seq<SessionEvent>,
)
    requires
        !online_outcome(s),
        forall|j: int| 0 <= j < events.len() ==> event_cannot_certify(#[trigger] events[j]),
    ensures
        !online_outcome(run_state(params, s, events)),
    decreases events.len(),
{
    if events.len() > 0 {
        let s1 = step_state(params, s, events[0]);
        assert(!online_outcome(s1));
        assert(forall|j: int|
            0 <= j < events.drop_first().len() ==> event_cannot_certify(
                #[trigger] events.drop_first()[j],
            ));
        lemma_never_online_without_qualifying_peer(params, s1, events.drop_first());
    }
}

/// Law: a qualifying pair polled in time wins at once, and the reported
/// count is whatever the summary holds under that pair's peer identifier
/// (0 when nothing is known).
pub proof fn lemma_qualifying_pair_yields_verdict(
    params: SessionParams,
    last_failure: Option<HealthFailure>,
    elapsed_ms: u64,
    s: crate::snapshot::InstanceSnapshot,
    i: int,
)
    requires
        elapsed_ms < params.deadline_ms,
        s.running,
        s.error_msg is None,
        crate::health::is_first_qualifying(s.peer_route_pairs@, i),
    ensures
        spec_step(
            params,
            SessionState::CheckingHealth { last_failure },
            SessionEvent::Polled { elapsed_ms, snapshot: Some(s) },
        ) == (
            SessionState::Finished {
                outcome: Ok(
                    Verdict {
                        online: true,
                        connection_count: crate::health::summary_count(
                            s.foreign_network_summary,
                            s.peer_route_pairs@[i].peer->Some_0.peer_id,
                        ),
                    },
                ),
            },
            SessionAction::TearDown,
        ),
{
    let pairs = s.peer_route_pairs@;
    assert(crate::health::has_qualifying(pairs));
    let j = crate::health::first_qualifying_idx(pairs);
    assert(crate::health::is_first_qualifying(pairs, j));
    if j < i {
        assert(!crate::health::pair_qualifies_spec(pairs[j]));
    } else if j > i {
        assert(!crate::health::pair_qualifies_spec(pairs[i]));
    }
    assert(crate::health::first_qualifying_idx(pairs) == i);
}

/// Law: an abrupt launch fault whose message carries an interface or
/// datalink marker becomes the typed `InterfaceEnumerationFault`, the
/// session ends without an instance to tear down, and its report is the
/// offline line with exit code 1.
pub proof fn lemma_launch_fault_contained(params: SessionParams, message: String)
    requires
        is_interface_fault_msg(message@),
    ensures
        spec_step(
            params,
            SessionState::Launching,
            SessionEvent::LaunchPanicked { message },
        ) == (
            SessionState::Finished {
                outcome: Err(ProbeError::InterfaceEnumerationFault { message }),
            },
            SessionAction::Finish,
        ),
        crate::report::status_line_spec(
            Err(ProbeError::InterfaceEnumerationFault { message }),
        ) == "0 0 0 0 0"@,
        crate::report::exit_code_spec(Err(ProbeError::InterfaceEnumerationFault { message }))
            == 1,
{
}

/// Performs one session step.
pub fn session_step(params: &SessionParams, state: SessionState, event: SessionEvent) -> (r: (
    SessionState,
    SessionAction,
))
    ensures
        r == spec_step(*params, state, event),
{
    match state {
        SessionState::Launching => match event {
            SessionEvent::LaunchSucceeded => (
                SessionState::AwaitingStartup,
                SessionAction::PollAfter { delay_ms: 0 },
            ),
            SessionEvent::LaunchFailed { message } => (
                SessionState::Finished { outcome: Err(ProbeError::LaunchError { message }) },
                SessionAction::Finish,
            ),
            SessionEvent::LaunchPanicked { message } => {
                let interface_fault = contains_substr(message.as_str(), "interface")
                    || contains_substr(message.as_str(), "pnet_datalink");
                let error = if interface_fault {
                    ProbeError::InterfaceEnumerationFault { message }
                } else {
                    ProbeError::LaunchFault { message }
                };
                (SessionState::Finished { outcome: Err(error) }, SessionAction::Finish)
            },
            SessionEvent::Polled { .. } => (SessionState::Launching, SessionAction::Launch),
        },
        SessionState::AwaitingStartup => match event {
            SessionEvent::Polled { elapsed_ms, snapshot } => {
                if snapshot.is_some() {
                    if elapsed_ms < params.deadline_ms {
                        (
                            SessionState::CheckingHealth { last_failure: None },
                            SessionAction::PollAfter { delay_ms: 0 },
                        )
                    } else {
                        (
                            SessionState::Finished {
                                outcome: Err(ProbeError::HealthCheckTimeout { last_failure: None }),
                            },
                            SessionAction::TearDown,
                        )
                    }
                } else {
                    let limit = if params.deadline_ms < STARTUP_CEILING_MS {
                        params.deadline_ms
                    } else {
                        STARTUP_CEILING_MS
                    };
                    if elapsed_ms < limit {
                        (
                            SessionState::AwaitingStartup,
                            SessionAction::PollAfter { delay_ms: STARTUP_POLL_MS },
                        )
                    } else {
                        (
                            SessionState::Finished { outcome: Err(ProbeError::StartupTimeout) },
                            SessionAction::TearDown,
                        )
                    }
                }
            },
            _ => (SessionState::AwaitingStartup, SessionAction::PollAfter { delay_ms: 0 }),
        },
        SessionState::CheckingHealth { last_failure } => match event {
            SessionEvent::Polled { elapsed_ms, snapshot } => {
                if elapsed_ms >= params.deadline_ms {
                    (
                        SessionState::Finished {
                            outcome: Err(ProbeError::HealthCheckTimeout { last_failure }),
                        },
                        SessionAction::TearDown,
                    )
                } else {
                    match test_node_healthy(snapshot) {
                        Ok(count) => (
                            SessionState::Finished {
                                outcome: Ok(Verdict { online: true, connection_count: count }),
                            },
                            SessionAction::TearDown,
                        ),
                        Err(failure) => (
                            SessionState::CheckingHealth { last_failure: Some(failure) },
                            SessionAction::PollAfter { delay_ms: HEALTH_POLL_MS },
                        ),
                    }
                }
            },
            _ => (
                SessionState::CheckingHealth { last_failure },
                SessionAction::PollAfter { delay_ms: 0 },
            ),
        },
        SessionState::Finished { outcome } => (
            SessionState::Finished { outcome },
            SessionAction::Finish,
        ),
    }
}

} // verus!
