//! Messages of the request buffer service.

use crate::poll::{Action, Pulse};
use crate::rpc::common::{Retry, Uuid};
use crate::rpc::conv_svc::ConvertRequest;
use crate::status::Status;
use crate::time::Timestamp;
use vstd::prelude::*;

verus! {

/// Queue this conversion request for the reply identifier.
#[derive(Clone, Debug, PartialEq, Eq)]
pub struct SaveRequest {
    pub request_id: Option<Uuid>,
    pub reply_id: Option<Uuid>,
    pub req: Option<ConvertRequest>,
    pub received: Option<Timestamp>,
}

/// The time the request was saved.
#[derive(Clone, Debug, PartialEq, Eq)]
pub struct SaveResponse {
    pub saved: Option<Timestamp>,
}

/// Load a queued request, polling under the retry policy.
#[derive(Clone, Debug, PartialEq, Eq)]
pub struct LoadRequest {
    pub request_id: Option<Uuid>,
    pub retry: Option<Retry>,
}

/// A queued request, its reply identifier and the times it was received and saved.
#[derive(Clone, Debug, PartialEq, Eq)]
pub struct LoadResponse {
    pub req: Option<ConvertRequest>,
    pub reply_id: Option<Uuid>,
    pub received: Option<Timestamp>,
    pub saved: Option<Timestamp>,
}

/// The request buffer service: whatever queues requests and hands each out
/// once.
///
/// A load is a poll. `load` begins one and gives it back as a stream; each
/// call of `load_next` drives it by one pulse and says what the caller does
/// next: wait for another tick, take the single item, or stop.
pub trait ReqBufferService: Sized {
    /// A load in progress.
    type LoadStream;

    /// Whether the request `req` may take this service to `after` with the
    /// answer `r`.
    spec fn save_spec(&self, req: SaveRequest, after: Self, r: Result<SaveResponse, Status>)
        -> bool;

    /// Whether `r` may answer the request `req` to begin a load.
    spec fn load_spec(&self, req: LoadRequest, r: Result<Self::LoadStream, Status>) -> bool;

    /// Whether one pulse may take this service and the load `stream` to
    /// `after` and `stream_after` with the decision `action`.
    spec fn load_next_spec(
        &self,
        stream: Self::LoadStream,
        pulse: Pulse,
        after: Self,
        stream_after: Self::LoadStream,
        action: Action<LoadResponse>,
    ) -> bool;

    /// Queues a request.
    fn save(&mut self, req: SaveRequest) -> (r: Result<SaveResponse, Status>)
        ensures
            old(self).save_spec(req, *final(self), r),
    ;

    /// Begins a load.
    fn load(&self, req: LoadRequest) -> (r: Result<Self::LoadStream, Status>)
        ensures
            self.load_spec(req, r),
    ;

    /// Drives a load by one pulse.
    fn load_next(&mut self, stream: &mut Self::LoadStream, pulse: Pulse) -> (action: Action<
        LoadResponse,
    >)
        ensures
            old(self).load_next_spec(*old(stream), pulse, *final(self), *final(stream), action),
    ;
}

} // verus!
