//! The orchestration engine: construction, the retry loop over the attempt
//! pipeline, completion, and the two timeout scopes around them.
//!
//! The specification side is an interpreter over the configuration
//! registry: for a given [`Config`] it determines the invocation's result,
//! the exact hook order, the start instant of every attempt, how often the
//! transport was called, and how often the diagnostic sink was flushed. The
//! executable engine is proved to produce exactly that.

use vstd::prelude::*;

use crate::config::{delay_sum_from, wf_config, AttemptScript, Config, ShouldAttempt};
use crate::context::{InterceptorContext, Slot};
use crate::hooks::{HookId, InvocationRecord};
use crate::phase::{spec_step_error, Cause, OrchestratorError, Phase, Phased};
use crate::timeout::{
    spec_scope_timeout, spec_timeout_error, timeout_error, MaybeTimeout, TimeoutKind,
};

verus! {

/// The context threaded through a chain of steps, the first failure if one
/// occurred, and the hooks the chain executed, in order.
pub struct StepChain {
    pub ctx: InterceptorContext,
    pub failure: Option<OrchestratorError>,
    pub hooks: Seq<HookId>,
}

/// One concluded attempt: the context it left behind, its failure if it did
/// not succeed, and the instant it resolved at.
pub struct AttemptDone {
    pub ctx: InterceptorContext,
    pub failure: Option<OrchestratorError>,
    pub end: u64,
}

/// How one attempt under both timers came out: `Err` exactly when the
/// whole-operation timer fired during the attempt and cancelled the
/// invocation; otherwise the concluded attempt, failed or not.
pub struct AttemptEnd {
    pub done: Result<AttemptDone, OrchestratorError>,
    pub hooks: Seq<HookId>,
    pub transport_called: bool,
}

/// The completion steps' result and the hooks they executed.
pub struct CompletionEnd {
    pub result: Result<u64, OrchestratorError>,
    pub hooks: Seq<HookId>,
}

/// Everything one invocation determines: its result, the hooks executed in
/// order, the start instant of each attempt, the number of transport calls,
/// and the number of diagnostic flushes.
pub struct Outcome {
    pub result: Result<u64, OrchestratorError>,
    pub hooks: Seq<HookId>,
    pub attempt_starts: Seq<u64>,
    pub transport_calls: int,
    pub flushes: int,
}

/// Applies a read-only step to a chain: skipped after an earlier failure;
/// otherwise the hook (if the step is one) runs and a failure is tagged
/// with `phase`.
pub open spec fn ro_step(
    c: StepChain,
    phase: Phase,
    hook: Option<HookId>,
    step: Result<(), u64>,
) -> StepChain {
    if c.failure is Some {
        c
    } else {
        let hooks = match hook {
            Some(id) => c.hooks.push(id),
            None => c.hooks,
        };
        match step {
            Ok(u) => StepChain { ctx: c.ctx, failure: None, hooks },
            Err(code) => StepChain {
                ctx: c.ctx,
                failure: Some(spec_step_error(phase, code)),
                hooks,
            },
        }
    }
}

/// Applies a mutating step aimed at `slot` to a chain, with the same
/// skipping, hook and tagging rules as [`ro_step`].
pub open spec fn mut_step(
    c: StepChain,
    phase: Phase,
    hook: Option<HookId>,
    slot: Slot,
    step: Result<Option<u64>, u64>,
) -> StepChain {
    if c.failure is Some {
        c
    } else {
        let hooks = match hook {
            Some(id) => c.hooks.push(id),
            None => c.hooks,
        };
        match step {
            Ok(m) => StepChain { ctx: c.ctx.with_mutation(slot, m), failure: None, hooks },
            Err(code) => StepChain {
                ctx: c.ctx,
                failure: Some(spec_step_error(phase, code)),
                hooks,
            },
        }
    }
}

/// The serialization step: the input is consumed either way; on success
/// the produced request is stored.
pub open spec fn serialize_step(c: StepChain, step: Result<u64, u64>) -> StepChain {
    if c.failure is Some {
        c
    } else {
        match step {
            Ok(req) => StepChain {
                ctx: InterceptorContext { input: None, request: Some(req), ..c.ctx },
                failure: None,
                hooks: c.hooks,
            },
            Err(code) => StepChain {
                ctx: InterceptorContext { input: None, ..c.ctx },
                failure: Some(spec_step_error(Phase::Construction, code)),
                hooks: c.hooks,
            },
        }
    }
}

/// Construction before configuration is complete: client-level
/// configuration, then the client hook, then operation-level configuration,
/// then the operation hook.
pub open spec fn spec_pre_config(input: u64, cfg: Config) -> StepChain {
    let c0 = StepChain {
        ctx: InterceptorContext::spec_new(input),
        failure: None,
        hooks: Seq::<HookId>::empty(),
    };
    let c1 = ro_step(c0, Phase::Construction, None, cfg.apply_client_configuration);
    let c2 = ro_step(
        c1,
        Phase::Construction,
        Some(HookId::ClientReadBeforeExecution),
        cfg.client_read_before_execution,
    );
    let c3 = ro_step(c2, Phase::Construction, None, cfg.apply_operation_configuration);
    ro_step(
        c3,
        Phase::Construction,
        Some(HookId::OperationReadBeforeExecution),
        cfg.operation_read_before_execution,
    )
}

/// Construction after configuration: the serialization hooks, the
/// serialization itself, and the hook before the retry loop.
pub open spec fn spec_post_construction(ctx: InterceptorContext, cfg: Config) -> StepChain {
    let c0 = StepChain { ctx, failure: None, hooks: Seq::<HookId>::empty() };
    let c1 = ro_step(
        c0,
        Phase::Construction,
        Some(HookId::ReadBeforeSerialization),
        cfg.read_before_serialization,
    );
    let c2 = mut_step(
        c1,
        Phase::Construction,
        Some(HookId::ModifyBeforeSerialization),
        Slot::Input,
        cfg.modify_before_serialization,
    );
    let c3 = serialize_step(c2, cfg.serialize);
    let c4 = ro_step(
        c3,
        Phase::Construction,
        Some(HookId::ReadAfterSerialization),
        cfg.read_after_serialization,
    );
    mut_step(
        c4,
        Phase::Construction,
        Some(HookId::ModifyBeforeRetryLoop),
        Slot::Request,
        cfg.modify_before_retry_loop,
    )
}

/// The attempt pipeline up to the transport call: the hooks before and
/// around endpoint resolution and signing, all dispatch-phase.
pub open spec fn spec_attempt_pre(ctx: InterceptorContext, s: AttemptScript) -> StepChain {
    let c0 = StepChain { ctx, failure: None, hooks: Seq::<HookId>::empty() };
    let c1 = ro_step(c0, Phase::Dispatch, Some(HookId::ReadBeforeAttempt), s.read_before_attempt);
    let c2 = mut_step(c1, Phase::Dispatch, None, Slot::Request, s.resolve_endpoint);
    let c3 = mut_step(
        c2,
        Phase::Dispatch,
        Some(HookId::ModifyBeforeSigning),
        Slot::Request,
        s.modify_before_signing,
    );
    let c4 = ro_step(c3, Phase::Dispatch, Some(HookId::ReadBeforeSigning), s.read_before_signing);
    let c5 = mut_step(c4, Phase::Dispatch, None, Slot::Request, s.sign);
    let c6 = ro_step(c5, Phase::Dispatch, Some(HookId::ReadAfterSigning), s.read_after_signing);
    let c7 = mut_step(
        c6,
        Phase::Dispatch,
        Some(HookId::ModifyBeforeTransmit),
        Slot::Request,
        s.modify_before_transmit,
    );
    ro_step(c7, Phase::Dispatch, Some(HookId::ReadBeforeTransmit), s.read_before_transmit)
}

/// The attempt pipeline after the transport call: the hooks around
/// deserialization, the deserialization itself (streaming fast path, or
/// full body read then the non-streaming call), and the closing hook. The
/// deserializer's outcome — output or operation error — is stored either
/// way; only a failed body read aborts the attempt here.
pub open spec fn spec_attempt_deser(ctx: InterceptorContext, s: AttemptScript) -> StepChain {
    let c0 = StepChain { ctx, failure: None, hooks: Seq::<HookId>::empty() };
    let c1 = ro_step(c0, Phase::Dispatch, Some(HookId::ReadAfterTransmit), s.read_after_transmit);
    let c2 = mut_step(
        c1,
        Phase::Dispatch,
        Some(HookId::ModifyBeforeDeserialization),
        Slot::Response,
        s.modify_before_deserialization,
    );
    let c3 = ro_step(
        c2,
        Phase::Dispatch,
        Some(HookId::ReadBeforeDeserialization),
        s.read_before_deserialization,
    );
    let c4 = if c3.failure is Some {
        c3
    } else {
        match s.deserialize_streaming {
            Some(oe) => StepChain {
                ctx: InterceptorContext { output_or_error: Some(oe), ..c3.ctx },
                failure: None,
                hooks: c3.hooks,
            },
            None => match s.read_body {
                Err(code) => StepChain {
                    ctx: c3.ctx,
                    failure: Some(spec_step_error(Phase::ResponseHandling, code)),
                    hooks: c3.hooks,
                },
                Ok(u) => StepChain {
                    ctx: InterceptorContext {
                        output_or_error: Some(s.deserialize_nonstreaming),
                        ..c3.ctx
                    },
                    failure: None,
                    hooks: c3.hooks,
                },
            },
        }
    };
    ro_step(
        c4,
        Phase::ResponseHandling,
        Some(HookId::ReadAfterDeserialization),
        s.read_after_deserialization,
    )
}

/// One attempt starting at instant `now` under the attempt-scope wrapper
/// `att` and the whole-operation wrapper `op` (whose timer started at 0).
///
/// A failure of any step concludes the attempt; the retry strategy decides
/// what happens next. The attempt-scope timer cancels only this attempt:
/// its expiry is an ordinary attempt failure resolved at the timer's
/// instant. The whole-operation timer firing first cancels the invocation.
pub open spec fn spec_attempt(
    ctx: InterceptorContext,
    s: AttemptScript,
    now: u64,
    att: MaybeTimeout,
    op: MaybeTimeout,
) -> AttemptEnd {
    let pre = spec_attempt_pre(ctx, s);
    match pre.failure {
        Some(e) => AttemptEnd {
            done: Ok(AttemptDone { ctx: pre.ctx, failure: Some(e), end: now }),
            hooks: pre.hooks,
            transport_called: false,
        },
        None => if pre.ctx.request is None {
            AttemptEnd {
                done: Ok(
                    AttemptDone {
                        ctx: pre.ctx,
                        failure: Some(
                            OrchestratorError {
                                phase: Phase::Dispatch,
                                cause: Cause::MissingSlot(Slot::Request),
                            },
                        ),
                        end: now,
                    },
                ),
                hooks: pre.hooks,
                transport_called: false,
            }
        } else {
            // the transport takes ownership of the request
            let ctx1 = InterceptorContext { request: None, ..pre.ctx };
            let resolve: u64 = if att.spec_cuts(s.transport_delay) {
                (now + att->duration) as u64
            } else {
                (now + s.transport_delay) as u64
            };
            if op.spec_cuts(resolve) {
                AttemptEnd {
                    done: Err(spec_timeout_error(op->kind, op->duration)),
                    hooks: pre.hooks,
                    transport_called: true,
                }
            } else if att.spec_cuts(s.transport_delay) {
                AttemptEnd {
                    done: Ok(
                        AttemptDone {
                            ctx: ctx1,
                            failure: Some(spec_timeout_error(att->kind, att->duration)),
                            end: resolve,
                        },
                    ),
                    hooks: pre.hooks,
                    transport_called: true,
                }
            } else {
                match s.transport {
                    Err(code) => AttemptEnd {
                        done: Ok(
                            AttemptDone {
                                ctx: ctx1,
                                failure: Some(spec_step_error(Phase::Dispatch, code)),
                                end: resolve,
                            },
                        ),
                        hooks: pre.hooks,
                        transport_called: true,
                    },
                    Ok(resp) => {
                        let de = spec_attempt_deser(
                            InterceptorContext { response: Some(resp), ..ctx1 },
                            s,
                        );
                        AttemptEnd {
                            done: Ok(AttemptDone { ctx: de.ctx, failure: de.failure, end: resolve }),
                            hooks: pre.hooks + de.hooks,
                            transport_called: true,
                        }
                    },
                }
            }
        },
    }
}

/// What the invocation returns once the retry loop has exited: the attempt's
/// failure if it had one; otherwise the stored output, or the stored
/// operation error surfaced as a response-handling failure.
pub open spec fn spec_finalize(
    ctx: InterceptorContext,
    failure: Option<OrchestratorError>,
) -> Result<u64, OrchestratorError> {
    match failure {
        Some(e) => Err(e),
        None => match ctx.output_or_error {
            Some(Ok(o)) => Ok(o),
            Some(Err(code)) => Err(
                OrchestratorError {
                    phase: Phase::ResponseHandling,
                    cause: Cause::Service { error: code, raw_response: ctx.response },
                },
            ),
            None => Err(
                OrchestratorError {
                    phase: Phase::ResponseHandling,
                    cause: Cause::MissingSlot(Slot::OutputOrError),
                },
            ),
        },
    }
}

/// The completion steps after the retry loop exits normally: the mutating
/// completion hook, the final read hook, then finalization.
pub open spec fn spec_complete(
    ctx: InterceptorContext,
    cfg: Config,
    failure: Option<OrchestratorError>,
) -> CompletionEnd {
    let h1 = seq![HookId::ModifyBeforeCompletion];
    match cfg.modify_before_completion {
        Err(code) => CompletionEnd {
            result: Err(spec_step_error(Phase::ResponseHandling, code)),
            hooks: h1,
        },
        Ok(m) => {
            let ctx2 = ctx.with_mutation(Slot::OutputOrError, m);
            let h2 = h1.push(HookId::ReadAfterExecution);
            match cfg.read_after_execution {
                Err(code) => CompletionEnd {
                    result: Err(spec_step_error(Phase::ResponseHandling, code)),
                    hooks: h2,
                },
                Ok(u) => CompletionEnd { result: spec_finalize(ctx2, failure), hooks: h2 },
            }
        },
    }
}

/// The retry loop from attempt `i` at instant `now`: run the attempt under
/// both timers; on its conclusion (success or failure) run the two
/// post-attempt hooks; then follow the retry strategy's decision. `Yes`
/// repeats the loop, `No` exits it normally — flushing diagnostics exactly
/// once — and a strategy error or an unsupported delayed retry aborts the
/// invocation as a response-handling failure.
pub open spec fn spec_loop(
    ctx: InterceptorContext,
    cfg: Config,
    i: int,
    now: u64,
    att: MaybeTimeout,
    op: MaybeTimeout,
) -> Outcome
    decreases cfg.attempts@.len() - i,
{
    if i < 0 || i >= cfg.attempts@.len() {
        // unreachable for a well-formed configuration
        Outcome {
            result: Err(
                OrchestratorError {
                    phase: Phase::Dispatch,
                    cause: Cause::MissingSlot(Slot::Request),
                },
            ),
            hooks: Seq::<HookId>::empty(),
            attempt_starts: Seq::<u64>::empty(),
            transport_calls: 0,
            flushes: 0,
        }
    } else {
        let s = cfg.attempts@[i];
        let a = spec_attempt(ctx, s, now, att, op);
        let tc: int = if a.transport_called {
            1
        } else {
            0
        };
        match a.done {
            Err(e) => Outcome {
                result: Err(e),
                hooks: a.hooks,
                attempt_starts: seq![now],
                transport_calls: tc,
                flushes: 0,
            },
            Ok(d) => {
                let h1 = a.hooks.push(HookId::ReadAfterAttempt);
                match s.read_after_attempt {
                    Err(code) => Outcome {
                        result: Err(spec_step_error(Phase::ResponseHandling, code)),
                        hooks: h1,
                        attempt_starts: seq![now],
                        transport_calls: tc,
                        flushes: 0,
                    },
                    Ok(u) => {
                        let h2 = h1.push(HookId::ModifyBeforeAttemptCompletion);
                        match s.modify_before_attempt_completion {
                            Err(code) => Outcome {
                                result: Err(spec_step_error(Phase::ResponseHandling, code)),
                                hooks: h2,
                                attempt_starts: seq![now],
                                transport_calls: tc,
                                flushes: 0,
                            },
                            Ok(m) => {
                                let ctx2 = d.ctx.with_mutation(Slot::OutputOrError, m);
                                match s.should_attempt_retry {
                                    Err(code) => Outcome {
                                        result: Err(
                                            spec_step_error(Phase::ResponseHandling, code),
                                        ),
                                        hooks: h2,
                                        attempt_starts: seq![now],
                                        transport_calls: tc,
                                        flushes: 0,
                                    },
                                    Ok(ShouldAttempt::YesAfterDelay(delay)) => Outcome {
                                        result: Err(
                                            OrchestratorError {
                                                phase: Phase::ResponseHandling,
                                                cause: Cause::UnsupportedDelay,
                                            },
                                        ),
                                        hooks: h2,
                                        attempt_starts: seq![now],
                                        transport_calls: tc,
                                        flushes: 0,
                                    },
                                    Ok(ShouldAttempt::Yes) => {
                                        let rest = spec_loop(ctx2, cfg, i + 1, d.end, att, op);
                                        Outcome {
                                            result: rest.result,
                                            hooks: h2 + rest.hooks,
                                            attempt_starts: seq![now] + rest.attempt_starts,
                                            transport_calls: tc + rest.transport_calls,
                                            flushes: rest.flushes,
                                        }
                                    },
                                    Ok(ShouldAttempt::No) => {
                                        let comp = spec_complete(ctx2, cfg, d.failure);
                                        Outcome {
                                            result: comp.result,
                                            hooks: h2 + comp.hooks,
                                            attempt_starts: seq![now],
                                            transport_calls: tc,
                                            flushes: 1,
                                        }
                                    },
                                }
                            },
                        }
                    },
                }
            },
        }
    }
}

/// Everything after configuration is complete: the rest of construction,
/// the initial retry decision, and the retry loop. The decision before the
/// first attempt is dispatch-phase: `No` and a strategy error are fatal,
/// and a delayed initial attempt is unsupported and fails fast.
pub open spec fn spec_post_config(ctx: InterceptorContext, cfg: Config) -> Outcome {
    let c = spec_post_construction(ctx, cfg);
    match c.failure {
        Some(e) => Outcome {
            result: Err(e),
            hooks: c.hooks,
            attempt_starts: Seq::<u64>::empty(),
            transport_calls: 0,
            flushes: 0,
        },
        None => {
            let att = spec_scope_timeout(cfg, TimeoutKind::OperationAttempt);
            let op = spec_scope_timeout(cfg, TimeoutKind::Operation);
            match cfg.should_attempt_initial_request {
                Err(code) => Outcome {
                    result: Err(spec_step_error(Phase::Dispatch, code)),
                    hooks: c.hooks,
                    attempt_starts: Seq::<u64>::empty(),
                    transport_calls: 0,
                    flushes: 0,
                },
                Ok(ShouldAttempt::No) => Outcome {
                    result: Err(
                        OrchestratorError {
                            phase: Phase::Dispatch,
                            cause: Cause::InitialAttemptRefused,
                        },
                    ),
                    hooks: c.hooks,
                    attempt_starts: Seq::<u64>::empty(),
                    transport_calls: 0,
                    flushes: 0,
                },
                Ok(ShouldAttempt::YesAfterDelay(delay)) => Outcome {
                    result: Err(
                        OrchestratorError {
                            phase: Phase::Dispatch,
                            cause: Cause::UnsupportedDelay,
                        },
                    ),
                    hooks: c.hooks,
                    attempt_starts: Seq::<u64>::empty(),
                    transport_calls: 0,
                    flushes: 0,
                },
                Ok(ShouldAttempt::Yes) => {
                    let l = spec_loop(c.ctx, cfg, 0, 0, att, op);
                    Outcome {
                        result: l.result,
                        hooks: c.hooks + l.hooks,
                        attempt_starts: l.attempt_starts,
                        transport_calls: l.transport_calls,
                        flushes: l.flushes,
                    }
                },
            }
        },
    }
}

/// One whole invocation of `input` under `cfg`.
pub open spec fn spec_invoke(input: u64, cfg: Config) -> Outcome {
    let p = spec_pre_config(input, cfg);
    match p.failure {
        Some(e) => Outcome {
            result: Err(e),
            hooks: p.hooks,
            attempt_starts: Seq::<u64>::empty(),
            transport_calls: 0,
            flushes: 0,
        },
        None => {
            let o = spec_post_config(p.ctx, cfg);
            Outcome {
                result: o.result,
                hooks: p.hooks + o.hooks,
                attempt_starts: o.attempt_starts,
                transport_calls: o.transport_calls,
                flushes: o.flushes,
            }
        },
    }
}

/// An attempt that the whole-operation timer did not cancel resolves
/// between its start and its start plus the scripted transport delay, and
/// never past that timer's deadline.
pub proof fn lemma_attempt_end_bounds(
    ctx: InterceptorContext,
    s: AttemptScript,
    now: u64,
    att: MaybeTimeout,
    op: MaybeTimeout,
)
    requires
        now + s.transport_delay <= u64::MAX,
    ensures
        ({
            let a = spec_attempt(ctx, s, now, att, op);
            a.done matches Ok(d) ==> {
                &&& now <= d.end <= now + s.transport_delay
                &&& (op matches MaybeTimeout::Timed { duration, .. } ==> (now <= duration
                    ==> d.end <= duration))
            }
        }),
{
}

/// Construction through configuration: the two configuration applications
/// and their read hooks, verified against [`spec_pre_config`].
fn invoke_pre_config(input: u64, cfg: &Config, rec: &mut InvocationRecord) -> (r: Result<
    InterceptorContext,
    OrchestratorError,
>)
    ensures
        ({
            let p = spec_pre_config(input, *cfg);
            &&& match (r, p.failure) {
                (Ok(c), None) => c == p.ctx,
                (Err(e), Some(pe)) => e == pe,
                _ => false,
            }
            &&& final(rec).hooks@ =~= old(rec).hooks@ + p.hooks
            &&& final(rec).attempt_starts@ == old(rec).attempt_starts@
            &&& final(rec).transport_calls == old(rec).transport_calls
            &&& final(rec).flushes == old(rec).flushes
        }),
{
    let context = InterceptorContext::new(input);
    let phased = Phased::enter(Phase::Construction, context);
    match phased.apply_readonly(cfg.apply_client_configuration) {
        Err(e) => {
            return Err(e);
        },
        Ok(u) => {},
    }
    rec.hooks.push(HookId::ClientReadBeforeExecution);
    match phased.apply_readonly(cfg.client_read_before_execution) {
        Err(e) => {
            return Err(e);
        },
        Ok(u) => {},
    }
    match phased.apply_readonly(cfg.apply_operation_configuration) {
        Err(e) => {
            return Err(e);
        },
        Ok(u) => {},
    }
    rec.hooks.push(HookId::OperationReadBeforeExecution);
    match phased.apply_readonly(cfg.operation_read_before_execution) {
        Err(e) => {
            return Err(e);
        },
        Ok(u) => {},
    }
    Ok(phased.finish())
}

/// One attempt of the pipeline, verified against [`spec_attempt`]:
/// endpoint resolution, signing, transmit and deserialization with their
/// hooks, under both timers. Returns `Err` exactly when the
/// whole-operation timer cancelled the invocation mid-attempt.
fn make_an_attempt(
    ctx: InterceptorContext,
    s: &AttemptScript,
    now: u64,
    att: &MaybeTimeout,
    op: &MaybeTimeout,
    rec: &mut InvocationRecord,
) -> (r: Result<AttemptDone, OrchestratorError>)
    requires
        now + s.transport_delay <= u64::MAX,
        old(rec).transport_calls < u64::MAX,
    ensures
        ({
            let a = spec_attempt(ctx, *s, now, *att, *op);
            &&& r == a.done
            &&& final(rec).hooks@ =~= old(rec).hooks@ + a.hooks
            &&& final(rec).attempt_starts@ == old(rec).attempt_starts@
            &&& final(rec).transport_calls == old(rec).transport_calls + (if a.transport_called {
                1int
            } else {
                0int
            })
            &&& final(rec).flushes == old(rec).flushes
        }),
{
    let mut phased = Phased::enter(Phase::Dispatch, ctx);
    rec.hooks.push(HookId::ReadBeforeAttempt);
    match phased.apply_readonly(s.read_before_attempt) {
        Err(e) => {
            return Ok(AttemptDone { ctx: phased.finish(), failure: Some(e), end: now });
        },
        Ok(u) => {},
    }
    match phased.apply_mutating(Slot::Request, s.resolve_endpoint) {
        Err(e) => {
            return Ok(AttemptDone { ctx: phased.finish(), failure: Some(e), end: now });
        },
        Ok(u) => {},
    }
    rec.hooks.push(HookId::ModifyBeforeSigning);
    match phased.apply_mutating(Slot::Request, s.modify_before_signing) {
        Err(e) => {
            return Ok(AttemptDone { ctx: phased.finish(), failure: Some(e), end: now });
        },
        Ok(u) => {},
    }
    rec.hooks.push(HookId::ReadBeforeSigning);
    match phased.apply_readonly(s.read_before_signing) {
        Err(e) => {
            return Ok(AttemptDone { ctx: phased.finish(), failure: Some(e), end: now });
        },
        Ok(u) => {},
    }
    match phased.apply_mutating(Slot::Request, s.sign) {
        Err(e) => {
            return Ok(AttemptDone { ctx: phased.finish(), failure: Some(e), end: now });
        },
        Ok(u) => {},
    }
    rec.hooks.push(HookId::ReadAfterSigning);
    match phased.apply_readonly(s.read_after_signing) {
        Err(e) => {
            return Ok(AttemptDone { ctx: phased.finish(), failure: Some(e), end: now });
        },
        Ok(u) => {},
    }
    rec.hooks.push(HookId::ModifyBeforeTransmit);
    match phased.apply_mutating(Slot::Request, s.modify_before_transmit) {
        Err(e) => {
            return Ok(AttemptDone { ctx: phased.finish(), failure: Some(e), end: now });
        },
        Ok(u) => {},
    }
    rec.hooks.push(HookId::ReadBeforeTransmit);
    match phased.apply_readonly(s.read_before_transmit) {
        Err(e) => {
            return Ok(AttemptDone { ctx: phased.finish(), failure: Some(e), end: now });
        },
        Ok(u) => {},
    }
    // take ownership of the request and hand it to the transport
    if phased.context.request.is_none() {
        let e = phased.fail(Cause::MissingSlot(Slot::Request));
        return Ok(AttemptDone { ctx: phased.finish(), failure: Some(e), end: now });
    }
    phased.context.request = None;
    rec.transport_calls = rec.transport_calls + 1;
    let att_fires = att.cuts(s.transport_delay);
    let resolve: u64 = if att_fires {
        match att {
            MaybeTimeout::Timed { duration, .. } => now + *duration,
            MaybeTimeout::Untimed => now,
        }
    } else {
        now + s.transport_delay
    };
    if op.cuts(resolve) {
        match op {
            MaybeTimeout::Timed { kind, duration } => {
                return Err(timeout_error(*kind, *duration));
            },
            MaybeTimeout::Untimed => {
                // a wrapper that cut is timed
                assert(false);
                return Err(phased.fail(Cause::MissingSlot(Slot::Request)));
            },
        }
    }
    if att_fires {
        match att {
            MaybeTimeout::Timed { kind, duration } => {
                let e = timeout_error(*kind, *duration);
                return Ok(AttemptDone { ctx: phased.finish(), failure: Some(e), end: resolve });
            },
            MaybeTimeout::Untimed => {
                // a wrapper that cut is timed
                assert(false);
                let e = phased.fail(Cause::MissingSlot(Slot::Request));
                return Ok(AttemptDone { ctx: phased.finish(), failure: Some(e), end: resolve });
            },
        }
    }
    match s.transport {
        Err(code) => {
            let e = phased.fail(Cause::Collaborator(code));
            return Ok(AttemptDone { ctx: phased.finish(), failure: Some(e), end: resolve });
        },
        Ok(resp) => {
            phased.context.response = Some(resp);
        },
    }
    rec.hooks.push(HookId::ReadAfterTransmit);
    match phased.apply_readonly(s.read_after_transmit) {
        Err(e) => {
            return Ok(AttemptDone { ctx: phased.finish(), failure: Some(e), end: resolve });
        },
        Ok(u) => {},
    }
    rec.hooks.push(HookId::ModifyBeforeDeserialization);
    match phased.apply_mutating(Slot::Response, s.modify_before_deserialization) {
        Err(e) => {
            return Ok(AttemptDone { ctx: phased.finish(), failure: Some(e), end: resolve });
        },
        Ok(u) => {},
    }
    rec.hooks.push(HookId::ReadBeforeDeserialization);
    match phased.apply_readonly(s.read_before_deserialization) {
        Err(e) => {
            return Ok(AttemptDone { ctx: phased.finish(), failure: Some(e), end: resolve });
        },
        Ok(u) => {},
    }
    let mut phased = phased.transition(Phase::ResponseHandling);
    match s.deserialize_streaming {
        Some(oe) => {
            phased.context.output_or_error = Some(oe);
        },
        None => {
            match s.read_body {
                Err(code) => {
                    let e = phased.fail(Cause::Collaborator(code));
                    return Ok(
                        AttemptDone { ctx: phased.finish(), failure: Some(e), end: resolve },
                    );
                },
                Ok(u) => {
                    phased.context.output_or_error = Some(s.deserialize_nonstreaming);
                },
            }
        },
    }
    rec.hooks.push(HookId::ReadAfterDeserialization);
    match phased.apply_readonly(s.read_after_deserialization) {
        Err(e) => {
            return Ok(AttemptDone { ctx: phased.finish(), failure: Some(e), end: resolve });
        },
        Ok(u) => {},
    }
    Ok(AttemptDone { ctx: phased.finish(), failure: None, end: resolve })
}

/// Everything after configuration: the rest of construction, the initial
/// retry decision, the retry loop, and completion, verified against
/// [`spec_post_config`].
fn invoke_post_config(
    ctx0: InterceptorContext,
    cfg: &Config,
    rec: &mut InvocationRecord,
) -> (r: Result<u64, OrchestratorError>)
    requires
        wf_config(*cfg),
        old(rec).transport_calls + cfg.attempts@.len() <= u64::MAX,
        old(rec).flushes < u64::MAX,
    ensures
        ({
            let o = spec_post_config(ctx0, *cfg);
            &&& r == o.result
            &&& final(rec).hooks@ =~= old(rec).hooks@ + o.hooks
            &&& final(rec).attempt_starts@ =~= old(rec).attempt_starts@ + o.attempt_starts
            &&& final(rec).transport_calls == old(rec).transport_calls + o.transport_calls
            &&& final(rec).flushes == old(rec).flushes + o.flushes
        }),
{
    let mut phased = Phased::enter(Phase::Construction, ctx0);
    rec.hooks.push(HookId::ReadBeforeSerialization);
    match phased.apply_readonly(cfg.read_before_serialization) {
        Err(e) => {
            return Err(e);
        },
        Ok(u) => {},
    }
    rec.hooks.push(HookId::ModifyBeforeSerialization);
    match phased.apply_mutating(Slot::Input, cfg.modify_before_serialization) {
        Err(e) => {
            return Err(e);
        },
        Ok(u) => {},
    }
    // serialization consumes the input and, on success, produces the request
    phased.context.input = None;
    match cfg.serialize {
        Err(code) => {
            return Err(phased.fail(Cause::Collaborator(code)));
        },
        Ok(req) => {
            phased.context.request = Some(req);
        },
    }
    rec.hooks.push(HookId::ReadAfterSerialization);
    match phased.apply_readonly(cfg.read_after_serialization) {
        Err(e) => {
            return Err(e);
        },
        Ok(u) => {},
    }
    rec.hooks.push(HookId::ModifyBeforeRetryLoop);
    match phased.apply_mutating(Slot::Request, cfg.modify_before_retry_loop) {
        Err(e) => {
            return Err(e);
        },
        Ok(u) => {},
    }
    let phased = phased.transition(Phase::Dispatch);
    match cfg.should_attempt_initial_request {
        Err(code) => {
            return Err(phased.fail(Cause::Collaborator(code)));
        },
        Ok(ShouldAttempt::No) => {
            return Err(phased.fail(Cause::InitialAttemptRefused));
        },
        Ok(ShouldAttempt::YesAfterDelay(delay)) => {
            return Err(phased.fail(Cause::UnsupportedDelay));
        },
        Ok(ShouldAttempt::Yes) => {},
    }
    let att = MaybeTimeout::from_config(cfg.maybe_timeout_config(TimeoutKind::OperationAttempt));
    let op = MaybeTimeout::from_config(cfg.maybe_timeout_config(TimeoutKind::Operation));
    let mut ctx = phased.finish();
    let n = cfg.attempts.len();
    let mut i: usize = 0;
    let mut now: u64 = 0;
    let ghost centry = ctx;
    let ghost l0 = spec_loop(centry, *cfg, 0, 0, att, op);
    let ghost he = rec.hooks@;
    let ghost se = rec.attempt_starts@;
    let ghost te = rec.transport_calls;
    let ghost fe = rec.flushes;
    proof {
        crate::config::lemma_delay_sum_nonneg(cfg.attempts@, 0);
    }
    loop
        invariant
            wf_config(*cfg),
            att == spec_scope_timeout(*cfg, TimeoutKind::OperationAttempt),
            op == spec_scope_timeout(*cfg, TimeoutKind::Operation),
            cfg.attempts@.len() == n,
            0 <= i < cfg.attempts@.len(),
            now + delay_sum_from(cfg.attempts@, i as int) <= u64::MAX,
            te == old(rec).transport_calls,
            fe == old(rec).flushes,
            te + cfg.attempts@.len() <= u64::MAX,
            fe < u64::MAX,
            rec.transport_calls <= te + i,
            rec.flushes == fe,
            rec.attempt_starts@.len() >= se.len(),
            l0 == spec_loop(centry, *cfg, 0, 0, att, op),
            ({
                let rest = spec_loop(ctx, *cfg, i as int, now, att, op);
                &&& l0.result == rest.result
                &&& he + l0.hooks =~= rec.hooks@ + rest.hooks
                &&& se + l0.attempt_starts =~= rec.attempt_starts@ + rest.attempt_starts
                &&& te + l0.transport_calls == rec.transport_calls + rest.transport_calls
                &&& l0.flushes == rest.flushes
            }),
            ({
                let o = spec_post_config(ctx0, *cfg);
                &&& o.result == l0.result
                &&& old(rec).hooks@ + o.hooks =~= he + l0.hooks
                &&& old(rec).attempt_starts@ + o.attempt_starts =~= se + l0.attempt_starts
                &&& o.transport_calls == l0.transport_calls
                &&& o.flushes == l0.flushes
                &&& se == old(rec).attempt_starts@
            }),
        decreases cfg.attempts@.len() - i,
    {
        proof {
            crate::config::lemma_delay_sum_nonneg(cfg.attempts@, i as int + 1);
        }
        let s = cfg.attempts[i];
        rec.attempt_starts.push(now);
        let run = make_an_attempt(ctx, &s, now, &att, &op, rec);
        proof {
            lemma_attempt_end_bounds(ctx, s, now, att, op);
        }
        let done = match run {
            Err(e) => {
                // the whole-operation timer fired: the invocation is cancelled
                return Err(e);
            },
            Ok(done) => done,
        };
        let mut ph = Phased::enter(Phase::ResponseHandling, done.ctx);
        rec.hooks.push(HookId::ReadAfterAttempt);
        match ph.apply_readonly(s.read_after_attempt) {
            Err(e) => {
                return Err(e);
            },
            Ok(u) => {},
        }
        rec.hooks.push(HookId::ModifyBeforeAttemptCompletion);
        match ph.apply_mutating(Slot::OutputOrError, s.modify_before_attempt_completion) {
            Err(e) => {
                return Err(e);
            },
            Ok(u) => {},
        }
        match s.should_attempt_retry {
            Err(code) => {
                return Err(ph.fail(Cause::Collaborator(code)));
            },
            Ok(ShouldAttempt::YesAfterDelay(delay)) => {
                return Err(ph.fail(Cause::UnsupportedDelay));
            },
            Ok(ShouldAttempt::Yes) => {
                ctx = ph.finish();
                now = done.end;
                i = i + 1;
            },
            Ok(ShouldAttempt::No) => {
                // the loop exits normally: flush diagnostics exactly once
                rec.flushes = rec.flushes + 1;
                rec.hooks.push(HookId::ModifyBeforeCompletion);
                match ph.apply_mutating(Slot::OutputOrError, cfg.modify_before_completion) {
                    Err(e) => {
                        return Err(e);
                    },
                    Ok(u) => {},
                }
                rec.hooks.push(HookId::ReadAfterExecution);
                match ph.apply_readonly(cfg.read_after_execution) {
                    Err(e) => {
                        return Err(e);
                    },
                    Ok(u) => {},
                }
                match done.failure {
                    Some(e) => {
                        return Err(e);
                    },
                    None => {
                        match ph.context.output_or_error {
                            Some(Ok(o)) => {
                                return Ok(o);
                            },
                            Some(Err(code)) => {
                                return Err(
                                    OrchestratorError {
                                        phase: Phase::ResponseHandling,
                                        cause: Cause::Service {
                                            error: code,
                                            raw_response: ph.context.response,
                                        },
                                    },
                                );
                            },
                            None => {
                                return Err(
                                    OrchestratorError {
                                        phase: Phase::ResponseHandling,
                                        cause: Cause::MissingSlot(Slot::OutputOrError),
                                    },
                                );
                            },
                        }
                    },
                }
            },
        }
    }
}

/// Runs one invocation and also reports what it did: the hooks in order,
/// the attempt start instants, the transport call count, and the diagnostic
/// flush count — exactly what [`spec_invoke`] determines.
pub fn invoke_recorded(input: u64, cfg: &Config) -> (r: (
    Result<u64, OrchestratorError>,
    InvocationRecord,
))
    requires
        wf_config(*cfg),
    ensures
        ({
            let o = spec_invoke(input, *cfg);
            &&& r.0 == o.result
            &&& r.1.hooks@ =~= o.hooks
            &&& r.1.attempt_starts@ =~= o.attempt_starts
            &&& r.1.transport_calls == o.transport_calls
            &&& r.1.flushes == o.flushes
        }),
{
    let mut rec = InvocationRecord::new();
    let n = cfg.attempts.len();
    match invoke_pre_config(input, cfg, &mut rec) {
        Err(e) => (Err(e), rec),
        Ok(ctx) => {
            let r = invoke_post_config(ctx, cfg, &mut rec);
            (r, rec)
        },
    }
}

/// The entry point: drives one invocation of `input` under the registry
/// `cfg` and returns the output, or the phase-tagged error. The whole
/// behavior — result, hook order, attempts, flushes — is pinned by
/// [`spec_invoke`].
pub fn invoke(input: u64, cfg: &Config) -> (r: Result<u64, OrchestratorError>)
    requires
        wf_config(*cfg),
    ensures
        r == spec_invoke(input, *cfg).result,
{
    let (r, rec) = invoke_recorded(input, cfg);
    r
}

} // verus!
