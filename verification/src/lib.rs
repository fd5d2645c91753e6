//! A client-side request orchestration engine.
//!
//! For each logical remote-procedure invocation the engine drives a fixed
//! pipeline — build, serialize, sign, transmit, deserialize — through an
//! ordered sequence of hook points, enforces two independent timeout scopes,
//! and runs a retry loop that may repeat the transmit/deserialize portion.
//!
//! The collaborators that the engine sequences (configuration contributors,
//! hooks, the retry strategy, the serializer, the transport, the
//! deserializer) are outside concerns reached through fixed interfaces. Here
//! each collaborator is represented by the outcome it hands back, so the
//! orchestration itself — ordering, phase tagging, timeout resolution, retry
//! decisions — is plain, verified logic. A driver that performs real work
//! gathers the outcomes and hands them to [`orchestrator::invoke`].

pub mod config;
pub mod context;
pub mod either;
pub mod hooks;
pub mod laws;
pub mod orchestrator;
pub mod phase;
pub mod timeout;
