//! The forwarder that hands pending requests to an indirect consumer: a load
//! from the request queue, shown to the consumer as a stream of at most one
//! pending request.

use crate::indirect::conv::req::get::req::GetReq;
use crate::poll::{Action, Pulse};
use crate::rpc::common::{Retry, Uuid as WireUuid};
use crate::rpc::conv_req::{GetRequest, GetResponse};
use crate::rpc::req_buf::{LoadRequest, LoadResponse, ReqBufferService};
use crate::status::{fails, Code, Status};
use crate::uuid::{join, lower, upper, Uuid};
use vstd::prelude::*;

verus! {

/// A forwarder over the request queue `req_svc` that polls it under the
/// policy `retry`.
pub struct Buffered<Q> {
    pub req_svc: Q,
    pub retry: Retry,
}

/// The request that loads a queued request under the policy `retry`.
pub open spec fn load_request(reqid: Uuid, retry: Retry) -> LoadRequest {
    LoadRequest {
        request_id: Some(WireUuid { hi: upper(reqid@), lo: lower(reqid@) }),
        retry: Some(retry),
    }
}

/// The pending request that the loaded entry `lr` is shown as.
pub open spec fn pending(lr: LoadResponse) -> GetResponse {
    GetResponse { req: lr.req, reply_id: lr.reply_id }
}

/// What the item `r` of a load is shown as.
pub open spec fn forwarded(r: Result<LoadResponse, Status>) -> Result<GetResponse, Status> {
    match r {
        Ok(lr) => Ok(pending(lr)),
        Err(e) => Err(e),
    }
}

/// Whether `shown` is what the consumer does on the decision `action` of the
/// load: the same, with the item shown as a pending request.
pub open spec fn shown_as(action: Action<LoadResponse>, shown: Action<GetResponse>) -> bool {
    match action {
        Action::Wait => shown is Wait,
        Action::Try => shown is Try,
        Action::Emit(item) => shown == Action::Emit(forwarded(item)),
        Action::Close => shown is Close,
    }
}

impl<Q: ReqBufferService> Buffered<Q> {
    /// The forwarder over `req_svc` that polls under `retry`.
    pub fn new(req_svc: Q, retry: Retry) -> (b: Self)
        ensures
            b.req_svc == req_svc,
            b.retry == retry,
    {
        Buffered { req_svc, retry }
    }

    /// Begins a load from `req_svc`.
    pub fn load(req_svc: &Q, req: LoadRequest) -> (r: Result<Q::LoadStream, Status>)
        ensures
            req_svc.load_spec(req, r),
    {
        req_svc.load(req)
    }

    /// Begins a load from `req_svc` for the request `reqid` under the policy
    /// `retry`.
    pub fn load_retry(req_svc: &Q, reqid: Uuid, retry: Retry) -> (r: Result<
        Q::LoadStream,
        Status,
    >)
        ensures
            req_svc.load_spec(load_request(reqid, retry), r),
    {
        let req = LoadRequest { request_id: Some(WireUuid::from(reqid)), retry: Some(retry) };
        Self::load(req_svc, req)
    }

    /// What the item `r` of a load is shown as: a loaded entry becomes a
    /// pending request with its reply identifier, a failure is passed on.
    pub fn forward(r: Result<LoadResponse, Status>) -> (shown: Result<GetResponse, Status>)
        ensures
            shown == forwarded(r),
    {
        match r {
            Ok(lr) => Ok(GetResponse { req: lr.req, reply_id: lr.reply_id }),
            Err(e) => Err(e),
        }
    }

    /// Begins the stream for the consumer's request `req`. A request without
    /// an identifier is refused as an invalid argument. Else the stream is
    /// the load begun under the forwarder's policy, or, where the queue
    /// refuses to begin one, the single failure that the stream consists of.
    pub fn get(&self, req: GetRequest) -> (r: Result<Result<Q::LoadStream, Status>, Status>)
        ensures
            match req.request_id {
                None => fails(r, Code::InvalidArgument, "request id missing"@),
                Some(q) => r matches Ok(stream) && exists|reqid: Uuid|
                    reqid@ == join(q.hi, q.lo) && #[trigger] self.req_svc.load_spec(
                        load_request(reqid, self.retry),
                        stream,
                    ),
            },
    {
        let checked: GetReq = match GetReq::try_from(req) {
            Ok(c) => c,
            Err(e) => {
                return Err(e);
            },
        };
        let reqid: Uuid = checked.as_request_id();
        let stream = Self::load_retry(&self.req_svc, reqid, self.retry);
        assert(self.req_svc.load_spec(load_request(reqid, self.retry), stream));
        Ok(stream)
    }

    /// Drives the load behind a stream by one pulse and says what the
    /// consumer does next: wait for another tick, take the single pending
    /// request or failure, or stop.
    pub fn get_next(&mut self, stream: &mut Q::LoadStream, pulse: Pulse) -> (shown: Action<
        GetResponse,
    >)
        ensures
            final(self).retry == old(self).retry,
            exists|action: Action<LoadResponse>|
                {
                    &&& #[trigger] old(self).req_svc.load_next_spec(
                        *old(stream),
                        pulse,
                        final(self).req_svc,
                        *final(stream),
                        action,
                    )
                    &&& shown_as(action, shown)
                },
    {
        let action = self.req_svc.load_next(stream, pulse);
        let ghost witness = action;
        let shown = match action {
            Action::Wait => Action::Wait,
            Action::Try => Action::Try,
            Action::Emit(item) => Action::Emit(Self::forward(item)),
            Action::Close => Action::Close,
        };
        assert(old(self).req_svc.load_next_spec(
            *old(stream),
            pulse,
            self.req_svc,
            *stream,
            witness,
        ));
        shown
    }
}

} // verus!
