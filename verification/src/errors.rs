//! The error taxonomy of a probe session.

use vstd::prelude::*;

verus! {

/// One failed health-evaluation attempt. Such a failure is never terminal by
/// itself: the evaluator retries until the overall deadline expires.
#[derive(Debug)]
pub enum HealthFailure {
    /// The engine returned no snapshot for the instance.
    NotStarted,
    /// The snapshot reports the instance as not running.
    NotRunning,
    /// The snapshot carries an engine-reported error message.
    EngineReportedError { message: String },
    /// No peer-route pair satisfies the qualification rule.
    NoQualifyingPeer,
}

/// A terminal error of a probe session; the shell renders any of these as
/// the offline line and exits nonzero.
#[derive(Debug)]
pub enum ProbeError {
    /// The server address did not parse as a URL.
    ConfigError,
    /// The engine's start call raised an abrupt fault whose message names an
    /// interface-enumeration or datalink failure.
    InterfaceEnumerationFault { message: String },
    /// The engine's start call raised an abrupt fault of another kind.
    LaunchFault { message: String },
    /// The engine's start call returned an ordinary error.
    LaunchError { message: String },
    /// No snapshot was ever observed within the startup ceiling.
    StartupTimeout,
    /// The overall deadline expired before a verdict was reached; carries the
    /// last failure observed by the evaluator, if any.
    HealthCheckTimeout { last_failure: Option<HealthFailure> },
}

} // verus!
