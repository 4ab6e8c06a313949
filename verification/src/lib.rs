//! The buffering layer between callers that can only make synchronous
//! request/response calls and a producer that works asynchronously: a bounded
//! request queue, a bounded keyed response store, a count-based expiration
//! tracker and the bounded polling protocol that ties them together.
//!
//! Every container is a plain value owned by one task; the functions here are
//! the state transitions that task performs and the decisions a polling task
//! takes between two waits.

pub mod buffer;
pub mod convert;
pub mod direct;
pub mod indirect;
pub mod poll;
pub mod retry;
pub mod rpc;
pub mod status;
pub mod text;
pub mod time;
pub mod uuid;
