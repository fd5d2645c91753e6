//! The hook dispatcher's fixed, totally-ordered set of extension points,
//! and the record of what one invocation executed.

use vstd::prelude::*;

verus! {

/// One extension point of the hook dispatcher. Read-only points observe
/// and may fail; mutating points may additionally rewrite one context slot.
#[derive(Clone, Copy, Debug, PartialEq, Eq, Structural)]
pub enum HookId {
    ClientReadBeforeExecution,
    OperationReadBeforeExecution,
    ReadBeforeSerialization,
    ModifyBeforeSerialization,
    ReadAfterSerialization,
    ModifyBeforeRetryLoop,
    ReadBeforeAttempt,
    ModifyBeforeSigning,
    ReadBeforeSigning,
    ReadAfterSigning,
    ModifyBeforeTransmit,
    ReadBeforeTransmit,
    ReadAfterTransmit,
    ModifyBeforeDeserialization,
    ReadBeforeDeserialization,
    ReadAfterDeserialization,
    ReadAfterAttempt,
    ModifyBeforeAttemptCompletion,
    ModifyBeforeCompletion,
    ReadAfterExecution,
}

/// The exact hook order of a single successful invocation that is not
/// retried: every extension point, once, in pipeline order.
pub open spec fn full_hook_order() -> Seq<HookId> {
    seq![
        HookId::ClientReadBeforeExecution,
        HookId::OperationReadBeforeExecution,
        HookId::ReadBeforeSerialization,
        HookId::ModifyBeforeSerialization,
        HookId::ReadAfterSerialization,
        HookId::ModifyBeforeRetryLoop,
        HookId::ReadBeforeAttempt,
        HookId::ModifyBeforeSigning,
        HookId::ReadBeforeSigning,
        HookId::ReadAfterSigning,
        HookId::ModifyBeforeTransmit,
        HookId::ReadBeforeTransmit,
        HookId::ReadAfterTransmit,
        HookId::ModifyBeforeDeserialization,
        HookId::ReadBeforeDeserialization,
        HookId::ReadAfterDeserialization,
        HookId::ReadAfterAttempt,
        HookId::ModifyBeforeAttemptCompletion,
        HookId::ModifyBeforeCompletion,
        HookId::ReadAfterExecution,
    ]
}

/// Executable mirror of [`full_hook_order`], for callers that compare a
/// recorded invocation against the canonical order.
pub fn full_hook_order_vec() -> (v: Vec<HookId>)
    ensures
        v@ == full_hook_order(),
{
    let v: Vec<HookId> = vec![
        HookId::ClientReadBeforeExecution,
        HookId::OperationReadBeforeExecution,
        HookId::ReadBeforeSerialization,
        HookId::ModifyBeforeSerialization,
        HookId::ReadAfterSerialization,
        HookId::ModifyBeforeRetryLoop,
        HookId::ReadBeforeAttempt,
        HookId::ModifyBeforeSigning,
        HookId::ReadBeforeSigning,
        HookId::ReadAfterSigning,
        HookId::ModifyBeforeTransmit,
        HookId::ReadBeforeTransmit,
        HookId::ReadAfterTransmit,
        HookId::ModifyBeforeDeserialization,
        HookId::ReadBeforeDeserialization,
        HookId::ReadAfterDeserialization,
        HookId::ReadAfterAttempt,
        HookId::ModifyBeforeAttemptCompletion,
        HookId::ModifyBeforeCompletion,
        HookId::ReadAfterExecution,
    ];
    proof {
        assert(v@ =~= full_hook_order());
    }
    v
}

/// What one invocation actually did, for diagnostics and for holding the
/// engine to its ordering guarantees: the hooks that ran, in order; the
/// start instant of each attempt; how often the transport was called; and
/// how often the diagnostic sink was flushed.
#[derive(Debug, PartialEq)]
pub struct InvocationRecord {
    pub hooks: Vec<HookId>,
    pub attempt_starts: Vec<u64>,
    pub transport_calls: u64,
    pub flushes: u64,
}

impl InvocationRecord {
    /// An empty record, before anything ran.
    pub fn new() -> (r: InvocationRecord)
        ensures
            r.hooks@ == Seq::<HookId>::empty(),
            r.attempt_starts@ == Seq::<u64>::empty(),
            r.transport_calls == 0,
            r.flushes == 0,
    {
        InvocationRecord {
            hooks: Vec::new(),
            attempt_starts: Vec::new(),
            transport_calls: 0,
            flushes: 0,
        }
    }
}

} // verus!
