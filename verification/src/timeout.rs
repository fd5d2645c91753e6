//! The timeout wrapper: races a suspending region against an optional
//! per-scope deadline.
//!
//! Durations and instants are in milliseconds. A region that would resolve
//! `elapsed` milliseconds after the wrapper starts is cut off exactly when a
//! timer with a shorter duration is present: on a tie the region's own
//! resolution wins, because the wrapped work is polled before the timer.

use vstd::prelude::*;

use crate::config::Config;
use crate::phase::{Cause, OrchestratorError, Phase};

verus! {

/// Selects which configured duration governs a suspending region:
/// the whole operation (all attempts, retries included) or one attempt.
#[derive(Clone, Copy, Debug, PartialEq, Eq, Structural)]
pub enum TimeoutKind {
    Operation,
    OperationAttempt,
}

/// A timeout that elapsed: the scope it was configured for and the
/// configured duration in milliseconds.
#[derive(Clone, Copy, Debug, PartialEq, Eq, Structural)]
pub struct MaybeTimeoutError {
    pub kind: TimeoutKind,
    pub duration: u64,
}

impl MaybeTimeoutError {
    /// Builds the error for a timeout of scope `kind` after `duration`.
    pub fn new(kind: TimeoutKind, duration: u64) -> (e: MaybeTimeoutError)
        ensures
            e == (MaybeTimeoutError { kind, duration }),
    {
        MaybeTimeoutError { kind, duration }
    }
}

/// The per-scope optional durations, as configuration holds them.
#[derive(Clone, Copy, Debug, PartialEq, Eq)]
pub struct TimeoutConfig {
    pub operation_timeout: Option<u64>,
    pub operation_attempt_timeout: Option<u64>,
}

/// The two knobs that decide whether a scope gets a deadline: whether a
/// sleep capability is configured at all, and the duration configured for
/// the requested scope.
#[derive(Clone, Copy, Debug, PartialEq, Eq)]
pub struct MaybeTimeoutConfig {
    pub sleep_available: bool,
    pub timeout: Option<u64>,
    pub timeout_kind: TimeoutKind,
}

/// The phase a timeout error of scope `kind` is tagged with: an attempt
/// timeout is an ordinary dispatch failure of that attempt, while a
/// whole-operation timeout aborts response handling of the invocation.
pub open spec fn spec_timeout_phase(kind: TimeoutKind) -> Phase {
    match kind {
        TimeoutKind::Operation => Phase::ResponseHandling,
        TimeoutKind::OperationAttempt => Phase::Dispatch,
    }
}

/// The distinguished error produced when the timer of scope `kind` with
/// configured duration `duration` expires first.
pub open spec fn spec_timeout_error(kind: TimeoutKind, duration: u64) -> OrchestratorError {
    OrchestratorError {
        phase: spec_timeout_phase(kind),
        cause: Cause::Timeout(MaybeTimeoutError { kind, duration }),
    }
}

/// Builds the distinguished timeout error for scope `kind`.
pub fn timeout_error(kind: TimeoutKind, duration: u64) -> (e: OrchestratorError)
    ensures
        e == spec_timeout_error(kind, duration),
{
    let phase = match kind {
        TimeoutKind::Operation => Phase::ResponseHandling,
        TimeoutKind::OperationAttempt => Phase::Dispatch,
    };
    OrchestratorError { phase, cause: Cause::Timeout(MaybeTimeoutError::new(kind, duration)) }
}

/// A wrapper that may or may not have a timeout, depending on whether one
/// was resolved: `Timed` races the wrapped work against a timer, `Untimed`
/// delegates directly, so the common no-timeout case carries no timer.
#[derive(Clone, Copy, Debug, PartialEq, Eq)]
pub enum MaybeTimeout {
    Timed { kind: TimeoutKind, duration: u64 },
    Untimed,
}

impl MaybeTimeout {
    /// The wrapper that `c` resolves to: timed exactly when a sleep
    /// capability is available and a duration is configured for the scope.
    pub open spec fn spec_from_config(c: MaybeTimeoutConfig) -> MaybeTimeout {
        match c.timeout {
            Some(duration) => if c.sleep_available {
                MaybeTimeout::Timed { kind: c.timeout_kind, duration }
            } else {
                MaybeTimeout::Untimed
            },
            None => MaybeTimeout::Untimed,
        }
    }

    /// Resolves the wrapper for one scope from its two knobs.
    pub fn from_config(c: MaybeTimeoutConfig) -> (w: MaybeTimeout)
        ensures
            w == MaybeTimeout::spec_from_config(c),
    {
        match c.timeout {
            Some(duration) => if c.sleep_available {
                MaybeTimeout::Timed { kind: c.timeout_kind, duration }
            } else {
                MaybeTimeout::Untimed
            },
            None => MaybeTimeout::Untimed,
        }
    }

    /// Whether the timer fires before work that resolves `elapsed`
    /// milliseconds after the wrapper starts. On a tie the work wins.
    pub open spec fn spec_cuts(self, elapsed: u64) -> bool {
        match self {
            MaybeTimeout::Timed { duration, .. } => duration < elapsed,
            MaybeTimeout::Untimed => false,
        }
    }

    /// Decides the race for work resolving after `elapsed` milliseconds.
    pub fn cuts(&self, elapsed: u64) -> (b: bool)
        ensures
            b == self.spec_cuts(elapsed),
    {
        match self {
            MaybeTimeout::Timed { duration, .. } => *duration < elapsed,
            MaybeTimeout::Untimed => false,
        }
    }

    /// The outcome of racing work against this wrapper: the work's own
    /// result when it resolves first (or when no timer exists), and the
    /// distinguished timeout error when the timer expires first.
    pub open spec fn spec_apply<T>(self, elapsed: u64, result: Result<T, OrchestratorError>) -> Result<
        T,
        OrchestratorError,
    > {
        match self {
            MaybeTimeout::Timed { kind, duration } => if duration < elapsed {
                Err(spec_timeout_error(kind, duration))
            } else {
                result
            },
            MaybeTimeout::Untimed => result,
        }
    }

    /// Races work whose resolution comes `elapsed` milliseconds in and
    /// whose own result is `result` against this wrapper.
    pub fn apply<T>(&self, elapsed: u64, result: Result<T, OrchestratorError>) -> (r: Result<
        T,
        OrchestratorError,
    >)
        ensures
            r == self.spec_apply(elapsed, result),
    {
        match self {
            MaybeTimeout::Timed { kind, duration } => if *duration < elapsed {
                Err(timeout_error(*kind, *duration))
            } else {
                result
            },
            MaybeTimeout::Untimed => result,
        }
    }
}

/// Already-resolved work (its resolution comes zero milliseconds in) comes
/// back unchanged through any wrapper whose configured duration is not
/// zero: the timer never interferes on the non-expiring path.
pub proof fn lemma_resolved_work_unchanged<T>(
    w: MaybeTimeout,
    result: Result<T, OrchestratorError>,
)
    requires
        w matches MaybeTimeout::Timed { duration, .. } ==> duration > 0,
    ensures
        w.spec_apply(0, result) == result,
{
}

/// More generally, whenever the work resolves no later than the timer, its
/// result propagates unchanged.
pub proof fn lemma_no_cut_propagates<T>(
    w: MaybeTimeout,
    elapsed: u64,
    result: Result<T, OrchestratorError>,
)
    requires
        !w.spec_cuts(elapsed),
    ensures
        w.spec_apply(elapsed, result) == result,
{
}

/// What `maybe_timeout_config` resolves for scope `kind`: without a
/// timeout configuration or a sleep capability no duration applies;
/// otherwise the duration configured for the requested scope.
pub open spec fn spec_maybe_timeout_config(cfg: Config, kind: TimeoutKind) -> MaybeTimeoutConfig {
    match cfg.timeout_config {
        Some(tc) => MaybeTimeoutConfig {
            sleep_available: cfg.sleep_available,
            timeout: if cfg.sleep_available {
                match kind {
                    TimeoutKind::Operation => tc.operation_timeout,
                    TimeoutKind::OperationAttempt => tc.operation_attempt_timeout,
                }
            } else {
                None
            },
            timeout_kind: kind,
        },
        None => MaybeTimeoutConfig { sleep_available: false, timeout: None, timeout_kind: kind },
    }
}

/// The wrapper governing scope `kind` under `cfg`.
pub open spec fn spec_scope_timeout(cfg: Config, kind: TimeoutKind) -> MaybeTimeout {
    MaybeTimeout::spec_from_config(spec_maybe_timeout_config(cfg, kind))
}

impl Config {
    /// Resolves the timeout knobs for one scope: if no timeout
    /// configuration is present, or no sleep capability is available, no
    /// duration applies regardless of what was configured; otherwise the
    /// duration configured for the requested scope is used if present.
    pub fn maybe_timeout_config(&self, timeout_kind: TimeoutKind) -> (c: MaybeTimeoutConfig)
        ensures
            c == spec_maybe_timeout_config(*self, timeout_kind),
    {
        match self.timeout_config {
            Some(tc) => {
                let timeout = if self.sleep_available {
                    match timeout_kind {
                        TimeoutKind::Operation => tc.operation_timeout,
                        TimeoutKind::OperationAttempt => tc.operation_attempt_timeout,
                    }
                } else {
                    None
                };
                MaybeTimeoutConfig { sleep_available: self.sleep_available, timeout, timeout_kind }
            },
            None => MaybeTimeoutConfig {
                sleep_available: false,
                timeout: None,
                timeout_kind,
            },
        }
    }
}

} // verus!
