//! Messages of the response buffer service.

use crate::poll::{Action, Pulse};
use crate::rpc::common::{Retry, Uuid};
use crate::rpc::conv_svc::ConvertResponse;
use crate::status::Status;
use crate::time::Timestamp;
use vstd::prelude::*;

verus! {

/// Store this response under the reply identifier.
#[derive(Clone, Debug, PartialEq, Eq)]
pub struct SetRequest {
    pub request_id: Option<Uuid>,
    pub reply_id: Option<Uuid>,
    pub res: Option<ConvertResponse>,
    pub received: Option<Timestamp>,
    pub saved: Option<Timestamp>,
    pub converted: Option<Timestamp>,
}

/// The time the response was stored.
#[derive(Clone, Debug, PartialEq, Eq)]
pub struct SetResponse {
    pub set: Option<Timestamp>,
}

/// Fetch the response stored under the reply identifier, polling under the retry policy.
#[derive(Clone, Debug, PartialEq, Eq)]
pub struct GetRequest {
    pub request_id: Option<Uuid>,
    pub reply_id: Option<Uuid>,
    pub retry: Option<Retry>,
}

/// A stored response and the times it was received, saved, converted and stored.
#[derive(Clone, Debug, PartialEq, Eq)]
pub struct GetResponse {
    pub res: Option<ConvertResponse>,
    pub received: Option<Timestamp>,
    pub saved: Option<Timestamp>,
    pub converted: Option<Timestamp>,
    pub set: Option<Timestamp>,
}

/// Drop the response stored under the reply identifier.
#[derive(Clone, Debug, PartialEq, Eq)]
pub struct DelRequest {
    pub request_id: Option<Uuid>,
    pub reply_id: Option<Uuid>,
}

/// The time the response was removed.
#[derive(Clone, Debug, PartialEq, Eq)]
pub struct DelResponse {
    pub removed: Option<Timestamp>,
}

/// Count the stored responses.
#[derive(Clone, Copy, Debug, PartialEq, Eq)]
pub struct LenRequest {
}

/// The number of stored responses.
#[derive(Clone, Copy, Debug, PartialEq, Eq)]
pub struct LenResponse {
    pub count: u64,
}

/// The response buffer service: whatever stores responses under reply
/// identifiers and hands each out once.
///
/// A fetch is a poll. `get` begins one and gives it back as a stream; each
/// call of `get_next` drives it by one pulse and says what the caller does
/// next: wait for another tick, take the single item, or stop.
pub trait ResBufferService: Sized {
    /// A fetch in progress.
    type GetStream;

    /// Whether `r` may answer the request `req` to begin a fetch.
    spec fn get_spec(&self, req: GetRequest, r: Result<Self::GetStream, Status>) -> bool;

    /// Whether one pulse may take this service and the fetch `stream` to
    /// `after` and `stream_after` with the decision `action`.
    spec fn get_next_spec(
        &self,
        stream: Self::GetStream,
        pulse: Pulse,
        after: Self,
        stream_after: Self::GetStream,
        action: Action<GetResponse>,
    ) -> bool;

    /// Whether the request `req` may take this service to `after` with the
    /// answer `r`.
    spec fn set_spec(&self, req: SetRequest, after: Self, r: Result<SetResponse, Status>) -> bool;

    /// Whether the request `req` may take this service to `after` with the
    /// answer `r`.
    spec fn del_spec(&self, req: DelRequest, after: Self, r: Result<DelResponse, Status>) -> bool;

    /// Whether `r` may answer a request for the number of stored responses.
    spec fn len_spec(&self, req: LenRequest, r: Result<LenResponse, Status>) -> bool;

    /// Begins a fetch.
    fn get(&self, req: GetRequest) -> (r: Result<Self::GetStream, Status>)
        ensures
            self.get_spec(req, r),
    ;

    /// Drives a fetch by one pulse.
    fn get_next(&mut self, stream: &mut Self::GetStream, pulse: Pulse) -> (action: Action<
        GetResponse,
    >)
        ensures
            old(self).get_next_spec(*old(stream), pulse, *final(self), *final(stream), action),
    ;

    /// Stores a response.
    fn set(&mut self, req: SetRequest) -> (r: Result<SetResponse, Status>)
        ensures
            old(self).set_spec(req, *final(self), r),
    ;

    /// Drops a stored response.
    fn del(&mut self, req: DelRequest) -> (r: Result<DelResponse, Status>)
        ensures
            old(self).del_spec(req, *final(self), r),
    ;

    /// Counts the stored responses.
    fn len(&self, req: LenRequest) -> (r: Result<LenResponse, Status>)
        ensures
            self.len_spec(req, r),
    ;
}

} // verus!
