use orchestrator_core::config::{Config, ShouldAttempt};
use orchestrator_core::phase::{Cause, OrchestratorError, Phase};
use orchestrator_core::timeout::{
    timeout_error, MaybeTimeout, MaybeTimeoutError, TimeoutConfig, TimeoutKind,
};

fn config_with(timeouts: Option<TimeoutConfig>, sleep_available: bool) -> Config {
    Config {
        apply_client_configuration: Ok(()),
        client_read_before_execution: Ok(()),
        apply_operation_configuration: Ok(()),
        operation_read_before_execution: Ok(()),
        read_before_serialization: Ok(()),
        modify_before_serialization: Ok(None),
        serialize: Ok(42),
        read_after_serialization: Ok(()),
        modify_before_retry_loop: Ok(None),
        should_attempt_initial_request: Ok(ShouldAttempt::Yes),
        attempts: vec![],
        modify_before_completion: Ok(None),
        read_after_execution: Ok(()),
        timeout_config: timeouts,
        sleep_available,
    }
}

#[test]
fn test_no_timeout() {
    // a sleep capability but no configured duration: the wrapper is untimed
    // and work resolving after 250 comes back unchanged
    let cfg = config_with(
        Some(TimeoutConfig { operation_timeout: None, operation_attempt_timeout: None }),
        true,
    );
    let w = MaybeTimeout::from_config(cfg.maybe_timeout_config(TimeoutKind::Operation));
    assert_eq!(w, MaybeTimeout::Untimed);
    let r: Result<&str, OrchestratorError> = w.apply(250, Ok("success"));
    assert_eq!(r.expect("success"), "success");
}

#[test]
fn test_operation_timeout() {
    // a 250 operation timeout against work that never resolves in time
    let cfg = config_with(
        Some(TimeoutConfig { operation_timeout: Some(250), operation_attempt_timeout: None }),
        true,
    );
    let w = MaybeTimeout::from_config(cfg.maybe_timeout_config(TimeoutKind::Operation));
    assert_eq!(w, MaybeTimeout::Timed { kind: TimeoutKind::Operation, duration: 250 });
    let r: Result<(), OrchestratorError> = w.apply(u64::MAX, Ok(()));
    let err = r.expect_err("should have timed out");
    assert_eq!(
        err,
        OrchestratorError {
            phase: Phase::ResponseHandling,
            cause: Cause::Timeout(MaybeTimeoutError {
                kind: TimeoutKind::Operation,
                duration: 250,
            })
        }
    );
}

#[test]
fn no_sleep_capability_disables_timeouts() {
    let cfg = config_with(
        Some(TimeoutConfig { operation_timeout: Some(5), operation_attempt_timeout: Some(5) }),
        false,
    );
    let w = MaybeTimeout::from_config(cfg.maybe_timeout_config(TimeoutKind::Operation));
    assert_eq!(w, MaybeTimeout::Untimed);
    let a = MaybeTimeout::from_config(cfg.maybe_timeout_config(TimeoutKind::OperationAttempt));
    assert_eq!(a, MaybeTimeout::Untimed);
}

#[test]
fn no_timeout_configuration_disables_timeouts() {
    let cfg = config_with(None, true);
    let w = MaybeTimeout::from_config(cfg.maybe_timeout_config(TimeoutKind::Operation));
    assert_eq!(w, MaybeTimeout::Untimed);
}

#[test]
fn each_scope_resolves_its_own_duration() {
    let cfg = config_with(
        Some(TimeoutConfig { operation_timeout: Some(300), operation_attempt_timeout: Some(50) }),
        true,
    );
    let w = MaybeTimeout::from_config(cfg.maybe_timeout_config(TimeoutKind::Operation));
    assert_eq!(w, MaybeTimeout::Timed { kind: TimeoutKind::Operation, duration: 300 });
    let a = MaybeTimeout::from_config(cfg.maybe_timeout_config(TimeoutKind::OperationAttempt));
    assert_eq!(a, MaybeTimeout::Timed { kind: TimeoutKind::OperationAttempt, duration: 50 });
}

#[test]
fn resolved_work_passes_through_timed_wrapper() {
    // already-resolved work under a non-zero timeout: the original result,
    // success or failure, comes back unchanged
    let w = MaybeTimeout::Timed { kind: TimeoutKind::OperationAttempt, duration: 1 };
    let ok: Result<u64, OrchestratorError> = w.apply(0, Ok(5));
    assert_eq!(ok, Ok(5));
    let failure = timeout_error(TimeoutKind::Operation, 9);
    let err: Result<u64, OrchestratorError> = w.apply(0, Err(failure));
    assert_eq!(err, Err(failure));
}

#[test]
fn tie_goes_to_the_work() {
    let w = MaybeTimeout::Timed { kind: TimeoutKind::OperationAttempt, duration: 10 };
    let r: Result<u64, OrchestratorError> = w.apply(10, Ok(5));
    assert_eq!(r, Ok(5));
    let cut: Result<u64, OrchestratorError> = w.apply(11, Ok(5));
    assert_eq!(cut, Err(timeout_error(TimeoutKind::OperationAttempt, 10)));
}

#[test]
fn timeout_error_carries_scope_and_duration() {
    let e = MaybeTimeoutError::new(TimeoutKind::OperationAttempt, 75);
    assert_eq!(e.kind, TimeoutKind::OperationAttempt);
    assert_eq!(e.duration, 75);
}
