//! Phases, errors, and the phase state machine that threads the context
//! through an ordered list of fallible steps, tagging any failure with the
//! phase it occurred in.

use vstd::prelude::*;

use crate::context::{InterceptorContext, Slot};
use crate::timeout::MaybeTimeoutError;

verus! {

/// A diagnostic tag attached to the context while it is threaded through
/// steps of that phase; it labels errors and never gates behavior.
///
/// Phases are ordered `Construction` then `Dispatch` then
/// `ResponseHandling`; `Dispatch` may be re-entered once per retry attempt,
/// but an invocation never regresses to `Construction`.
#[derive(Clone, Copy, Debug, PartialEq, Eq, Structural)]
pub enum Phase {
    Construction,
    Dispatch,
    ResponseHandling,
}

/// The underlying cause of an invocation failure.
#[derive(Clone, Copy, Debug, PartialEq, Eq, Structural)]
pub enum Cause {
    /// An outside collaborator (configuration contributor, hook, serializer,
    /// endpoint resolver, signer, transport, body reader, or retry strategy)
    /// reported this error code.
    Collaborator(u64),
    /// The retry strategy indicated that the initial request should not be
    /// made, without specifying why. Fatal and non-retryable.
    InitialAttemptRefused,
    /// The retry strategy asked for an attempt after a delay. Delayed
    /// attempts are a deliberate, documented limitation: the engine fails
    /// fast rather than silently retrying at once or dropping the delay.
    UnsupportedDelay,
    /// A slot that a step consumes was empty — for instance, a retry began
    /// and no mutating step re-derived the consumed request.
    MissingSlot(Slot),
    /// The deserializer produced this operation error as the final
    /// output-or-error of the last attempt, together with the raw response
    /// it was read from, if one was received.
    Service { error: u64, raw_response: Option<u64> },
    /// A timeout scope elapsed before the work under it resolved.
    Timeout(MaybeTimeoutError),
}

/// An invocation failure: the underlying cause plus the phase it surfaced
/// in. The tag is diagnostic only.
#[derive(Clone, Copy, Debug, PartialEq, Eq, Structural)]
pub struct OrchestratorError {
    pub phase: Phase,
    pub cause: Cause,
}

/// The error produced when a step of `phase` reports error code `code`.
pub open spec fn spec_step_error(phase: Phase, code: u64) -> OrchestratorError {
    OrchestratorError { phase, cause: Cause::Collaborator(code) }
}

/// The context paired with the phase tag it is currently threaded under.
///
/// The machine sequences fallible steps: a read-only step inspects the
/// context and may fail; a mutating step may additionally rewrite one slot.
/// The first failure aborts the pipeline, tagged with the current phase.
pub struct Phased {
    pub phase: Phase,
    pub context: InterceptorContext,
}

impl Phased {
    /// Begins a phase over `context`.
    pub fn enter(phase: Phase, context: InterceptorContext) -> (p: Phased)
        ensures
            p.phase == phase,
            p.context == context,
    {
        Phased { phase, context }
    }

    /// Carries the same context into a new phase tag.
    pub fn transition(self, phase: Phase) -> (p: Phased)
        ensures
            p.phase == phase,
            p.context == self.context,
    {
        Phased { phase, context: self.context }
    }

    /// Yields the context, ending the phase without tagging anything.
    pub fn finish(self) -> (c: InterceptorContext)
        ensures
            c == self.context,
    {
        self.context
    }

    /// Immediately produces a phase-tagged error from `cause`.
    pub fn fail(&self, cause: Cause) -> (e: OrchestratorError)
        ensures
            e == (OrchestratorError { phase: self.phase, cause }),
    {
        OrchestratorError { phase: self.phase, cause }
    }

    /// The result of a read-only step whose outcome was `step`: success, or
    /// the step's error tagged with the current phase.
    pub open spec fn spec_apply_readonly(self, step: Result<(), u64>) -> Result<
        (),
        OrchestratorError,
    > {
        match step {
            Ok(u) => Ok(u),
            Err(code) => Err(spec_step_error(self.phase, code)),
        }
    }

    /// Applies a read-only step: the context is unchanged; a failure is
    /// tagged with the current phase.
    pub fn apply_readonly(&self, step: Result<(), u64>) -> (r: Result<(), OrchestratorError>)
        ensures
            r == self.spec_apply_readonly(step),
    {
        match step {
            Ok(u) => Ok(u),
            Err(code) => Err(self.fail(Cause::Collaborator(code))),
        }
    }

    /// Applies a mutating step aimed at `slot`: on `Ok(Some(v))` the slot
    /// is rewritten to `v`, on `Ok(None)` the context is unchanged, and a
    /// failure leaves the context unchanged and is tagged with the current
    /// phase.
    pub fn apply_mutating(&mut self, slot: Slot, step: Result<Option<u64>, u64>) -> (r: Result<
        (),
        OrchestratorError,
    >)
        ensures
            final(self).phase == old(self).phase,
            match step {
                Ok(m) => r == Ok::<(), OrchestratorError>(()) && final(self).context
                    == old(self).context.with_mutation(slot, m),
                Err(code) => r == Err::<(), OrchestratorError>(
                    spec_step_error(old(self).phase, code),
                ) && final(self).context == old(self).context,
            },
    {
        match step {
            Ok(Some(v)) => {
                match slot {
                    Slot::Input => {
                        self.context.input = Some(v);
                    },
                    Slot::Request => {
                        self.context.request = Some(v);
                    },
                    Slot::Response => {
                        self.context.response = Some(v);
                    },
                    Slot::OutputOrError => {
                        self.context.output_or_error = Some(Ok(v));
                    },
                }
                Ok(())
            },
            Ok(None) => Ok(()),
            Err(code) => Err(self.fail(Cause::Collaborator(code))),
        }
    }
}

} // verus!
