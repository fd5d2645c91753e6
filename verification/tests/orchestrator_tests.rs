use orchestrator_core::config::{AttemptScript, Config, ShouldAttempt};
use orchestrator_core::context::Slot;
use orchestrator_core::hooks::full_hook_order_vec;
use orchestrator_core::orchestrator::{invoke, invoke_recorded};
use orchestrator_core::phase::{Cause, OrchestratorError, Phase};
use orchestrator_core::timeout::{MaybeTimeoutError, TimeoutConfig, TimeoutKind};

fn ok_attempt() -> AttemptScript {
    AttemptScript {
        read_before_attempt: Ok(()),
        resolve_endpoint: Ok(Some(91)),
        modify_before_signing: Ok(None),
        read_before_signing: Ok(()),
        sign: Ok(None),
        read_after_signing: Ok(()),
        modify_before_transmit: Ok(None),
        read_before_transmit: Ok(()),
        transport_delay: 0,
        transport: Ok(200),
        read_after_transmit: Ok(()),
        modify_before_deserialization: Ok(None),
        read_before_deserialization: Ok(()),
        deserialize_streaming: None,
        read_body: Ok(()),
        deserialize_nonstreaming: Ok(7),
        read_after_deserialization: Ok(()),
        read_after_attempt: Ok(()),
        modify_before_attempt_completion: Ok(None),
        should_attempt_retry: Ok(ShouldAttempt::No),
    }
}

fn base_config(attempts: Vec<AttemptScript>) -> Config {
    Config {
        apply_client_configuration: Ok(()),
        client_read_before_execution: Ok(()),
        apply_operation_configuration: Ok(()),
        operation_read_before_execution: Ok(()),
        read_before_serialization: Ok(()),
        modify_before_serialization: Ok(None),
        serialize: Ok(42),
        read_after_serialization: Ok(()),
        modify_before_retry_loop: Ok(None),
        should_attempt_initial_request: Ok(ShouldAttempt::Yes),
        attempts,
        modify_before_completion: Ok(None),
        read_after_execution: Ok(()),
        timeout_config: None,
        sleep_available: false,
    }
}

#[test]
fn single_success_returns_output() {
    let cfg = base_config(vec![ok_attempt()]);
    assert_eq!(invoke(1, &cfg), Ok(7));
}

#[test]
fn hook_order_matches_dispatcher() {
    let cfg = base_config(vec![ok_attempt()]);
    let (r, rec) = invoke_recorded(1, &cfg);
    assert_eq!(r, Ok(7));
    assert_eq!(rec.hooks, full_hook_order_vec());
    assert_eq!(rec.flushes, 1);
    assert_eq!(rec.transport_calls, 1);
    assert_eq!(rec.attempt_starts, vec![0]);
}

#[test]
fn retry_recovers_after_transport_failure() {
    let mut first = ok_attempt();
    first.transport = Err(5);
    first.should_attempt_retry = Ok(ShouldAttempt::Yes);
    let mut second = ok_attempt();
    second.deserialize_nonstreaming = Ok(99);
    let cfg = base_config(vec![first, second]);
    let (r, rec) = invoke_recorded(1, &cfg);
    assert_eq!(r, Ok(99));
    assert_eq!(rec.attempt_starts.len(), 2);
    assert_eq!(rec.transport_calls, 2);
    assert_eq!(rec.flushes, 1);
}

#[test]
fn initial_refusal_blocks_transport() {
    let mut cfg = base_config(vec![]);
    cfg.should_attempt_initial_request = Ok(ShouldAttempt::No);
    let (r, rec) = invoke_recorded(1, &cfg);
    assert_eq!(
        r,
        Err(OrchestratorError { phase: Phase::Dispatch, cause: Cause::InitialAttemptRefused })
    );
    assert_eq!(rec.transport_calls, 0);
    assert_eq!(rec.attempt_starts.len(), 0);
    assert_eq!(rec.flushes, 0);
}

#[test]
fn initial_strategy_error_is_dispatch_phase() {
    let mut cfg = base_config(vec![]);
    cfg.should_attempt_initial_request = Err(3);
    assert_eq!(
        invoke(1, &cfg),
        Err(OrchestratorError { phase: Phase::Dispatch, cause: Cause::Collaborator(3) })
    );
}

#[test]
fn initial_delay_is_unsupported() {
    let mut cfg = base_config(vec![]);
    cfg.should_attempt_initial_request = Ok(ShouldAttempt::YesAfterDelay(10));
    assert_eq!(
        invoke(1, &cfg),
        Err(OrchestratorError { phase: Phase::Dispatch, cause: Cause::UnsupportedDelay })
    );
}

#[test]
fn retry_delay_is_unsupported() {
    let mut only = ok_attempt();
    only.should_attempt_retry = Ok(ShouldAttempt::YesAfterDelay(10));
    let cfg = base_config(vec![only]);
    assert_eq!(
        invoke(1, &cfg),
        Err(OrchestratorError { phase: Phase::ResponseHandling, cause: Cause::UnsupportedDelay })
    );
}

#[test]
fn retry_strategy_error_aborts_response_handling() {
    let mut only = ok_attempt();
    only.should_attempt_retry = Err(6);
    let cfg = base_config(vec![only]);
    let (r, rec) = invoke_recorded(1, &cfg);
    assert_eq!(
        r,
        Err(OrchestratorError { phase: Phase::ResponseHandling, cause: Cause::Collaborator(6) })
    );
    assert_eq!(rec.flushes, 0);
}

#[test]
fn construction_hook_failure_is_construction_phase() {
    let mut cfg = base_config(vec![ok_attempt()]);
    cfg.read_before_serialization = Err(2);
    let (r, rec) = invoke_recorded(1, &cfg);
    assert_eq!(
        r,
        Err(OrchestratorError { phase: Phase::Construction, cause: Cause::Collaborator(2) })
    );
    assert_eq!(rec.attempt_starts.len(), 0);
}

#[test]
fn serializer_failure_is_construction_phase() {
    let mut cfg = base_config(vec![ok_attempt()]);
    cfg.serialize = Err(11);
    assert_eq!(
        invoke(1, &cfg),
        Err(OrchestratorError { phase: Phase::Construction, cause: Cause::Collaborator(11) })
    );
}

#[test]
fn signing_hook_failure_is_dispatch_phase() {
    let mut only = ok_attempt();
    only.read_before_signing = Err(4);
    let cfg = base_config(vec![only]);
    assert_eq!(
        invoke(1, &cfg),
        Err(OrchestratorError { phase: Phase::Dispatch, cause: Cause::Collaborator(4) })
    );
}

#[test]
fn service_error_surfaces_from_stored_result() {
    let mut only = ok_attempt();
    only.deserialize_nonstreaming = Err(77);
    let cfg = base_config(vec![only]);
    assert_eq!(
        invoke(1, &cfg),
        Err(OrchestratorError {
            phase: Phase::ResponseHandling,
            cause: Cause::Service { error: 77, raw_response: Some(200) },
        })
    );
}

#[test]
fn streaming_fast_path_skips_body_read() {
    let mut only = ok_attempt();
    only.deserialize_streaming = Some(Ok(13));
    only.read_body = Err(9);
    let cfg = base_config(vec![only]);
    assert_eq!(invoke(1, &cfg), Ok(13));
}

#[test]
fn body_read_failure_is_response_handling_phase() {
    let mut only = ok_attempt();
    only.read_body = Err(8);
    let cfg = base_config(vec![only]);
    assert_eq!(
        invoke(1, &cfg),
        Err(OrchestratorError { phase: Phase::ResponseHandling, cause: Cause::Collaborator(8) })
    );
}

#[test]
fn retry_without_rederived_request_reports_missing_slot() {
    let mut first = ok_attempt();
    first.transport = Err(5);
    first.should_attempt_retry = Ok(ShouldAttempt::Yes);
    let mut second = ok_attempt();
    second.resolve_endpoint = Ok(None);
    let cfg = base_config(vec![first, second]);
    assert_eq!(
        invoke(1, &cfg),
        Err(OrchestratorError {
            phase: Phase::Dispatch,
            cause: Cause::MissingSlot(Slot::Request)
        })
    );
}

#[test]
fn attempt_timeout_surfaces_with_scope_and_duration() {
    let mut only = ok_attempt();
    only.transport_delay = 100;
    let mut cfg = base_config(vec![only]);
    cfg.timeout_config = Some(TimeoutConfig {
        operation_timeout: None,
        operation_attempt_timeout: Some(50),
    });
    cfg.sleep_available = true;
    assert_eq!(
        invoke(1, &cfg),
        Err(OrchestratorError {
            phase: Phase::Dispatch,
            cause: Cause::Timeout(MaybeTimeoutError {
                kind: TimeoutKind::OperationAttempt,
                duration: 50,
            })
        })
    );
}

#[test]
fn attempt_timeout_then_retry_succeeds() {
    let mut first = ok_attempt();
    first.transport_delay = 100;
    first.should_attempt_retry = Ok(ShouldAttempt::Yes);
    let mut second = ok_attempt();
    second.transport_delay = 10;
    let mut cfg = base_config(vec![first, second]);
    cfg.timeout_config = Some(TimeoutConfig {
        operation_timeout: Some(300),
        operation_attempt_timeout: Some(50),
    });
    cfg.sleep_available = true;
    let (r, rec) = invoke_recorded(1, &cfg);
    // the first attempt was cut at 50; the retry started there and finished
    // at 60, well before the whole-operation deadline
    assert_eq!(r, Ok(7));
    assert_eq!(rec.attempt_starts, vec![0, 50]);
    assert_eq!(rec.transport_calls, 2);
}

#[test]
fn operation_timeout_aborts_mid_loop() {
    let mut first = ok_attempt();
    first.transport_delay = 80;
    first.transport = Err(5);
    first.should_attempt_retry = Ok(ShouldAttempt::Yes);
    let mut second = ok_attempt();
    second.transport_delay = 80;
    second.should_attempt_retry = Ok(ShouldAttempt::Yes);
    let third = ok_attempt();
    let mut cfg = base_config(vec![first, second, third]);
    cfg.timeout_config = Some(TimeoutConfig {
        operation_timeout: Some(100),
        operation_attempt_timeout: None,
    });
    cfg.sleep_available = true;
    let (r, rec) = invoke_recorded(1, &cfg);
    assert_eq!(
        r,
        Err(OrchestratorError {
            phase: Phase::ResponseHandling,
            cause: Cause::Timeout(MaybeTimeoutError {
                kind: TimeoutKind::Operation,
                duration: 100,
            })
        })
    );
    // the second attempt began before the deadline and was cancelled by it;
    // the third attempt never began despite the remaining retry budget
    assert_eq!(rec.attempt_starts, vec![0, 80]);
    assert_eq!(rec.transport_calls, 2);
    assert_eq!(rec.flushes, 0);
}

#[test]
fn mutating_hook_rewrites_stored_output() {
    let mut only = ok_attempt();
    only.modify_before_attempt_completion = Ok(Some(55));
    let cfg = base_config(vec![only]);
    assert_eq!(invoke(1, &cfg), Ok(55));
}
