use health_check_cli::errors::HealthFailure;
use health_check_cli::errors::ProbeError;
use health_check_cli::report::exit_code;
use health_check_cli::report::status_line;
use health_check_cli::report::u32_to_string;
use health_check_cli::session::Verdict;

#[test]
fn decimal_rendering() {
    assert_eq!(u32_to_string(0).as_str(), "0");
    assert_eq!(u32_to_string(7).as_str(), "7");
    assert_eq!(u32_to_string(10).as_str(), "10");
    assert_eq!(u32_to_string(305).as_str(), "305");
    assert_eq!(u32_to_string(u32::MAX).as_str(), "4294967295");
}

#[test]
fn online_line_carries_the_count() {
    let outcome = Ok(Verdict { online: true, connection_count: 3 });
    assert_eq!(status_line(&outcome).as_str(), "1 3 0 0 0");
    assert_eq!(exit_code(&outcome), 0);
    let big = Ok(Verdict { online: true, connection_count: u32::MAX });
    assert_eq!(status_line(&big).as_str(), "1 4294967295 0 0 0");
}

#[test]
fn negative_verdict_is_offline() {
    let outcome = Ok(Verdict { online: false, connection_count: 7 });
    assert_eq!(status_line(&outcome).as_str(), "0 7 0 0 0");
    assert_eq!(exit_code(&outcome), 1);
}

#[test]
fn every_error_collapses_to_the_offline_line() {
    let errors = vec![
        ProbeError::ConfigError,
        ProbeError::InterfaceEnumerationFault { message: String::from("x") },
        ProbeError::LaunchFault { message: String::from("x") },
        ProbeError::LaunchError { message: String::from("x") },
        ProbeError::StartupTimeout,
        ProbeError::HealthCheckTimeout { last_failure: None },
        ProbeError::HealthCheckTimeout {
            last_failure: Some(HealthFailure::NoQualifyingPeer),
        },
    ];
    for e in errors {
        let outcome: Result<Verdict, ProbeError> = Err(e);
        assert_eq!(status_line(&outcome).as_str(), "0 0 0 0 0");
        assert_eq!(exit_code(&outcome), 1);
    }
}
