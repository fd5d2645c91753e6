//! The invocation context: the mutable, exclusively-owned state slots
//! threaded through the pipeline.

use vstd::prelude::*;

verus! {

/// Names one of the four value slots of an [`InterceptorContext`].
#[derive(Clone, Copy, Debug, PartialEq, Eq, Structural)]
pub enum Slot {
    Input,
    Request,
    Response,
    OutputOrError,
}

/// The state slots of one invocation. Each slot holds at most one value.
///
/// Per attempt, `input` is consumed exactly once (at serialization),
/// `request` is consumed exactly once (at transmit), and `response` and
/// `output_or_error` are set once and read by later hooks. A retry produces
/// a new `request`/`response`/`output_or_error` cycle; the consumed
/// `request` of a prior attempt is not reused unless a mutating step
/// re-derives it.
#[derive(Clone, Copy, Debug, PartialEq, Eq)]
pub struct InterceptorContext {
    /// The operation input, not yet serialized.
    pub input: Option<u64>,
    /// The serialized request, not yet transmitted.
    pub request: Option<u64>,
    /// The received response, not yet deserialized.
    pub response: Option<u64>,
    /// The final result of an attempt: the deserialized output, or the
    /// operation error the deserializer produced.
    pub output_or_error: Option<Result<u64, u64>>,
}

impl InterceptorContext {
    /// A fresh context holding only the operation input.
    pub open spec fn spec_new(input: u64) -> InterceptorContext {
        InterceptorContext {
            input: Some(input),
            request: None,
            response: None,
            output_or_error: None,
        }
    }

    /// Builds a fresh context holding only the operation input.
    pub fn new(input: u64) -> (c: InterceptorContext)
        ensures
            c == InterceptorContext::spec_new(input),
    {
        InterceptorContext {
            input: Some(input),
            request: None,
            response: None,
            output_or_error: None,
        }
    }

    /// The context after writing `v` into `slot`. A write to the output
    /// slot stores a success value; the other slots store `v` itself.
    pub open spec fn with_slot(self, slot: Slot, v: u64) -> InterceptorContext {
        match slot {
            Slot::Input => InterceptorContext { input: Some(v), ..self },
            Slot::Request => InterceptorContext { request: Some(v), ..self },
            Slot::Response => InterceptorContext { response: Some(v), ..self },
            Slot::OutputOrError => InterceptorContext { output_or_error: Some(Ok(v)), ..self },
        }
    }

    /// The context after a mutating step that either rewrote `slot` or
    /// left the context alone.
    pub open spec fn with_mutation(self, slot: Slot, m: Option<u64>) -> InterceptorContext {
        match m {
            Some(v) => self.with_slot(slot, v),
            None => self,
        }
    }
}

} // verus!
