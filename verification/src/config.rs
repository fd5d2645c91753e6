//! The configuration registry consulted throughout one invocation.
//!
//! Every consumed capability — configuration contributors, hooks, the retry
//! strategy, the serializer, the transport, the deserializer, the sleep
//! provider — is an outside collaborator reached through a fixed interface.
//! The registry therefore records, for each point where the engine consults
//! a collaborator, the outcome that collaborator hands back: a read-only
//! step yields `Result<(), u64>` (success, or an error code); a mutating
//! step yields `Result<Option<u64>, u64>` (optionally rewriting one context
//! slot, or an error code). The engine's own behavior — ordering, phase
//! tagging, timeouts, retries — is then fully determined and verified.

use vstd::prelude::*;

use crate::timeout::TimeoutConfig;

verus! {

/// The retry strategy's decision, returned before the first attempt and
/// after each subsequent attempt.
#[derive(Clone, Copy, Debug, PartialEq, Eq, Structural)]
pub enum ShouldAttempt {
    Yes,
    No,
    YesAfterDelay(u64),
}

/// What the collaborators hand back during one attempt, in pipeline order.
///
/// `transport_delay` is how many milliseconds the transport call takes to
/// resolve (successfully or not); every other step resolves immediately.
#[derive(Clone, Copy, Debug, PartialEq, Eq)]
pub struct AttemptScript {
    /// Hook: start of the attempt.
    pub read_before_attempt: Result<(), u64>,
    /// Endpoint resolution; may rewrite the request.
    pub resolve_endpoint: Result<Option<u64>, u64>,
    /// Hook; may rewrite the request.
    pub modify_before_signing: Result<Option<u64>, u64>,
    /// Hook.
    pub read_before_signing: Result<(), u64>,
    /// Authentication and signing; may rewrite the request.
    pub sign: Result<Option<u64>, u64>,
    /// Hook.
    pub read_after_signing: Result<(), u64>,
    /// Hook; may rewrite the request.
    pub modify_before_transmit: Result<Option<u64>, u64>,
    /// Hook.
    pub read_before_transmit: Result<(), u64>,
    /// Milliseconds until the transport call resolves.
    pub transport_delay: u64,
    /// The transport's resolution: a response, or a transport error.
    pub transport: Result<u64, u64>,
    /// Hook.
    pub read_after_transmit: Result<(), u64>,
    /// Hook; may rewrite the response.
    pub modify_before_deserialization: Result<Option<u64>, u64>,
    /// Hook.
    pub read_before_deserialization: Result<(), u64>,
    /// The deserializer's streaming fast path: `Some` produces the
    /// output-or-error without reading the full body.
    pub deserialize_streaming: Option<Result<u64, u64>>,
    /// Reading the full body, on the non-streaming path.
    pub read_body: Result<(), u64>,
    /// The non-streaming deserialization, after the body was read. Both
    /// outcomes are stored in the context: an `Err` here is the operation's
    /// own error, not an abort of the attempt.
    pub deserialize_nonstreaming: Result<u64, u64>,
    /// Hook: end of the attempt pipeline.
    pub read_after_deserialization: Result<(), u64>,
    /// Hook: after the attempt concludes, successfully or not.
    pub read_after_attempt: Result<(), u64>,
    /// Hook; may rewrite the output-or-error.
    pub modify_before_attempt_completion: Result<Option<u64>, u64>,
    /// The retry strategy's decision after this attempt.
    pub should_attempt_retry: Result<ShouldAttempt, u64>,
}

/// The whole registry for one invocation: the once-per-invocation steps,
/// one [`AttemptScript`] per attempt the collaborators are prepared for,
/// and the timeout knobs.
#[derive(Debug, PartialEq)]
pub struct Config {
    /// Client-level configuration application (not a hook).
    pub apply_client_configuration: Result<(), u64>,
    /// Hook: after client-level configuration is applied.
    pub client_read_before_execution: Result<(), u64>,
    /// Operation-level configuration application (not a hook).
    pub apply_operation_configuration: Result<(), u64>,
    /// Hook: after operation-level configuration is applied.
    pub operation_read_before_execution: Result<(), u64>,
    /// Hook: before the input is serialized.
    pub read_before_serialization: Result<(), u64>,
    /// Hook; may rewrite the input.
    pub modify_before_serialization: Result<Option<u64>, u64>,
    /// The serializer's outcome: the request serialized from the input, or
    /// an error. Serialization consumes the input.
    pub serialize: Result<u64, u64>,
    /// Hook: after the request is produced.
    pub read_after_serialization: Result<(), u64>,
    /// Hook; may rewrite the request before the retry loop begins.
    pub modify_before_retry_loop: Result<Option<u64>, u64>,
    /// The retry strategy's decision before the first attempt.
    pub should_attempt_initial_request: Result<ShouldAttempt, u64>,
    /// One script per attempt the collaborators can serve.
    pub attempts: Vec<AttemptScript>,
    /// Hook, once after the retry loop exits; may rewrite the
    /// output-or-error.
    pub modify_before_completion: Result<Option<u64>, u64>,
    /// Hook, once, final.
    pub read_after_execution: Result<(), u64>,
    /// The configured per-scope durations, if any configuration is present.
    pub timeout_config: Option<TimeoutConfig>,
    /// Whether a sleep capability is configured; its absence disables
    /// timeouts entirely.
    pub sleep_available: bool,
}

/// The total transport delay of the attempt scripts from index `i` on.
pub open spec fn delay_sum_from(attempts: Seq<AttemptScript>, i: int) -> int
    decreases attempts.len() - i,
{
    if i < 0 || i >= attempts.len() {
        0
    } else {
        attempts[i].transport_delay + delay_sum_from(attempts, i + 1)
    }
}

pub proof fn lemma_delay_sum_nonneg(attempts: Seq<AttemptScript>, i: int)
    ensures
        delay_sum_from(attempts, i) >= 0,
    decreases attempts.len() - i,
{
    if 0 <= i < attempts.len() {
        lemma_delay_sum_nonneg(attempts, i + 1);
    }
}

/// A registry is well formed when the attempt scripts cover every attempt
/// the retry decisions can reach, and the scripted delays sum within the
/// machine's clock range.
pub open spec fn wf_config(cfg: Config) -> bool {
    &&& (cfg.should_attempt_initial_request matches Ok(ShouldAttempt::Yes)
        ==> cfg.attempts@.len() >= 1)
    &&& (forall|i: int|
        (0 <= i < cfg.attempts@.len() && (#[trigger] cfg.attempts@[i].should_attempt_retry)
            matches Ok(ShouldAttempt::Yes)) ==> i + 1 < cfg.attempts@.len())
    &&& delay_sum_from(cfg.attempts@, 0) <= u64::MAX
}

} // verus!
