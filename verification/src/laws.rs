//! The engine's guarantees, stated and proved over the specification
//! interpreter: retry recovery, refusal of the initial attempt, timeout
//! scoping, and the exact hook order of a clean invocation.

use vstd::prelude::*;

use crate::config::{
    delay_sum_from, lemma_delay_sum_nonneg, wf_config, AttemptScript, Config, ShouldAttempt,
};
use crate::context::InterceptorContext;
use crate::hooks::full_hook_order;
use crate::orchestrator::{
    lemma_attempt_end_bounds, spec_attempt, spec_attempt_pre, spec_invoke, spec_loop,
    spec_post_construction, spec_pre_config,
};
use crate::phase::{Cause, OrchestratorError, Phase};
use crate::timeout::{spec_scope_timeout, spec_timeout_error, MaybeTimeout, TimeoutKind};

verus! {

/// All once-per-invocation construction steps succeed.
pub open spec fn construction_succeeds(cfg: Config) -> bool {
    &&& cfg.apply_client_configuration is Ok
    &&& cfg.client_read_before_execution is Ok
    &&& cfg.apply_operation_configuration is Ok
    &&& cfg.operation_read_before_execution is Ok
    &&& cfg.read_before_serialization is Ok
    &&& cfg.modify_before_serialization is Ok
    &&& cfg.serialize is Ok
    &&& cfg.read_after_serialization is Ok
    &&& cfg.modify_before_retry_loop is Ok
}

/// Every hook of one attempt succeeds, and the post-attempt mutating hook
/// leaves the stored output-or-error alone.
pub open spec fn attempt_hooks_succeed(s: AttemptScript) -> bool {
    &&& s.read_before_attempt is Ok
    &&& s.resolve_endpoint is Ok
    &&& s.modify_before_signing is Ok
    &&& s.read_before_signing is Ok
    &&& s.sign is Ok
    &&& s.read_after_signing is Ok
    &&& s.modify_before_transmit is Ok
    &&& s.read_before_transmit is Ok
    &&& s.read_after_transmit is Ok
    &&& s.modify_before_deserialization is Ok
    &&& s.read_before_deserialization is Ok
    &&& s.read_after_deserialization is Ok
    &&& s.read_after_attempt is Ok
    &&& s.modify_before_attempt_completion == Ok::<Option<u64>, u64>(None)
}

/// The completion hooks succeed and leave the stored output-or-error alone.
pub open spec fn completion_succeeds(cfg: Config) -> bool {
    &&& cfg.modify_before_completion == Ok::<Option<u64>, u64>(None)
    &&& cfg.read_after_execution is Ok
}

/// No deadline governs either scope.
pub open spec fn no_timeouts(cfg: Config) -> bool {
    &&& spec_scope_timeout(cfg, TimeoutKind::Operation) == MaybeTimeout::Untimed
    &&& spec_scope_timeout(cfg, TimeoutKind::OperationAttempt) == MaybeTimeout::Untimed
}

/// If the retry strategy refuses the initial request, the invocation fails
/// with a dispatch-phase error and the transport is never called: no
/// attempt even starts.
pub proof fn lemma_initial_refusal_blocks_transport(input: u64, cfg: Config)
    requires
        wf_config(cfg),
        construction_succeeds(cfg),
        cfg.should_attempt_initial_request == Ok::<ShouldAttempt, u64>(ShouldAttempt::No),
    ensures
        spec_invoke(input, cfg).result == Err::<u64, OrchestratorError>(
            OrchestratorError { phase: Phase::Dispatch, cause: Cause::InitialAttemptRefused },
        ),
        spec_invoke(input, cfg).transport_calls == 0,
        spec_invoke(input, cfg).attempt_starts.len() == 0,
{
}

/// With a strategy that allows exactly one retry, a transport failing on
/// the first call and succeeding on the second, and otherwise clean
/// collaborators, the invocation makes exactly two attempts and returns the
/// second attempt's deserialized output.
pub proof fn lemma_retry_recovers(input: u64, cfg: Config, out: u64)
    requires
        wf_config(cfg),
        construction_succeeds(cfg),
        completion_succeeds(cfg),
        no_timeouts(cfg),
        cfg.should_attempt_initial_request == Ok::<ShouldAttempt, u64>(ShouldAttempt::Yes),
        cfg.attempts@.len() == 2,
        attempt_hooks_succeed(cfg.attempts@[0]),
        attempt_hooks_succeed(cfg.attempts@[1]),
        cfg.attempts@[0].transport is Err,
        cfg.attempts@[0].should_attempt_retry == Ok::<ShouldAttempt, u64>(ShouldAttempt::Yes),
        cfg.attempts@[1].resolve_endpoint matches Ok(Some(r)),
        cfg.attempts@[1].transport is Ok,
        cfg.attempts@[1].deserialize_streaming is None,
        cfg.attempts@[1].read_body is Ok,
        cfg.attempts@[1].deserialize_nonstreaming == Ok::<u64, u64>(out),
        cfg.attempts@[1].should_attempt_retry == Ok::<ShouldAttempt, u64>(ShouldAttempt::No),
    ensures
        spec_invoke(input, cfg).result == Ok::<u64, OrchestratorError>(out),
        spec_invoke(input, cfg).attempt_starts.len() == 2,
        spec_invoke(input, cfg).transport_calls == 2,
{
    reveal_with_fuel(spec_loop, 3);
    lemma_delay_sum_nonneg(cfg.attempts@, 1);
    lemma_delay_sum_nonneg(cfg.attempts@, 2);
}

/// An attempt-scope timer shorter than the transport's delay cancels just
/// that attempt: the attempt concludes at the timer's instant with the
/// distinguished timeout error carrying the single-attempt scope and the
/// configured duration — an ordinary attempt failure for the retry loop.
pub proof fn lemma_attempt_timeout_is_ordinary_failure(
    ctx: InterceptorContext,
    s: AttemptScript,
    now: u64,
    d: u64,
    op: MaybeTimeout,
)
    requires
        now + s.transport_delay <= u64::MAX,
        spec_attempt_pre(ctx, s).failure is None,
        spec_attempt_pre(ctx, s).ctx.request is Some,
        d < s.transport_delay,
        !op.spec_cuts((now + d) as u64),
    ensures
        ({
            let att = MaybeTimeout::Timed { kind: TimeoutKind::OperationAttempt, duration: d };
            let a = spec_attempt(ctx, s, now, att, op);
            &&& a.done matches Ok(ad) && ad.failure == Some(
                spec_timeout_error(TimeoutKind::OperationAttempt, d),
            ) && ad.end == now + d
            &&& a.transport_called
        }),
{
}

/// Under a whole-operation deadline, no attempt of the retry loop begins
/// after that deadline, regardless of the remaining retry budget: each
/// attempt either resolves by the deadline or the timer cancels the whole
/// invocation.
pub proof fn lemma_loop_attempts_before_deadline(
    ctx: InterceptorContext,
    cfg: Config,
    i: int,
    now: u64,
    att: MaybeTimeout,
    d_op: u64,
)
    requires
        0 <= i,
        now + delay_sum_from(cfg.attempts@, i) <= u64::MAX,
        now <= d_op,
    ensures
        ({
            let op = MaybeTimeout::Timed { kind: TimeoutKind::Operation, duration: d_op };
            let l = spec_loop(ctx, cfg, i, now, att, op);
            forall|j: int| 0 <= j < l.attempt_starts.len() ==> l.attempt_starts[j] <= d_op
        }),
    decreases cfg.attempts@.len() - i,
{
    let op = MaybeTimeout::Timed { kind: TimeoutKind::Operation, duration: d_op };
    if i < cfg.attempts@.len() {
        let s = cfg.attempts@[i];
        lemma_delay_sum_nonneg(cfg.attempts@, i + 1);
        lemma_attempt_end_bounds(ctx, s, now, att, op);
        let a = spec_attempt(ctx, s, now, att, op);
        match a.done {
            Err(e) => {},
            Ok(d) => {
                if s.read_after_attempt is Ok {
                    match s.modify_before_attempt_completion {
                        Err(code) => {},
                        Ok(m) => {
                            if s.should_attempt_retry == Ok::<ShouldAttempt, u64>(
                                ShouldAttempt::Yes,
                            ) {
                                let ctx2 = d.ctx.with_mutation(
                                    crate::context::Slot::OutputOrError,
                                    m,
                                );
                                lemma_loop_attempts_before_deadline(
                                    ctx2,
                                    cfg,
                                    i + 1,
                                    d.end,
                                    att,
                                    d_op,
                                );
                            }
                        },
                    }
                }
            },
        }
    }
}

/// The same guarantee for a whole invocation: with a whole-operation
/// deadline configured, every attempt starts at or before it.
pub proof fn lemma_no_attempt_after_deadline(input: u64, cfg: Config, d_op: u64)
    requires
        wf_config(cfg),
        spec_scope_timeout(cfg, TimeoutKind::Operation) == (MaybeTimeout::Timed {
            kind: TimeoutKind::Operation,
            duration: d_op,
        }),
    ensures
        ({
            let starts = spec_invoke(input, cfg).attempt_starts;
            forall|j: int| 0 <= j < starts.len() ==> starts[j] <= d_op
        }),
{
    let p = spec_pre_config(input, cfg);
    if p.failure is None {
        let c = spec_post_construction(p.ctx, cfg);
        if c.failure is None && cfg.should_attempt_initial_request == Ok::<ShouldAttempt, u64>(
            ShouldAttempt::Yes,
        ) {
            let att = spec_scope_timeout(cfg, TimeoutKind::OperationAttempt);
            lemma_loop_attempts_before_deadline(c.ctx, cfg, 0, 0, att, d_op);
        }
    }
}

/// For a single successful invocation that is not retried, the hooks run
/// exactly once each, in exactly the dispatcher's order, and the
/// diagnostic sink is flushed exactly once.
pub proof fn lemma_single_attempt_hook_order(input: u64, cfg: Config)
    requires
        wf_config(cfg),
        construction_succeeds(cfg),
        completion_succeeds(cfg),
        no_timeouts(cfg),
        cfg.should_attempt_initial_request == Ok::<ShouldAttempt, u64>(ShouldAttempt::Yes),
        cfg.attempts@.len() == 1,
        attempt_hooks_succeed(cfg.attempts@[0]),
        cfg.attempts@[0].transport is Ok,
        cfg.attempts@[0].deserialize_streaming is None,
        cfg.attempts@[0].read_body is Ok,
        cfg.attempts@[0].deserialize_nonstreaming is Ok,
        cfg.attempts@[0].should_attempt_retry == Ok::<ShouldAttempt, u64>(ShouldAttempt::No),
    ensures
        spec_invoke(input, cfg).hooks == full_hook_order(),
        spec_invoke(input, cfg).result is Ok,
        spec_invoke(input, cfg).flushes == 1,
        spec_invoke(input, cfg).attempt_starts.len() == 1,
{
    lemma_delay_sum_nonneg(cfg.attempts@, 1);
    assert(spec_invoke(input, cfg).hooks =~= full_hook_order());
}

} // verus!
