//! The buffered conversion: a synchronous conversion call made of a push to
//! the request queue and a poll of the response store.
//!
//! The caller's request is queued under a fresh reply identifier. Elsewhere
//! an indirect worker takes it from the queue, converts it and stores the
//! result under that identifier, where the poll begun here finds it.

use crate::poll::{Action, Pulse};
use crate::rpc::common::{Retry, Uuid as WireUuid};
use crate::rpc::conv_svc::{ConvertRequest, ConvertResponse};
use crate::rpc::req_buf::{ReqBufferService, SaveRequest, SaveResponse};
use crate::rpc::res_buf::{GetRequest, GetResponse, ResBufferService};
use crate::status::{fails, Code, Status};
use crate::time::{now, Timestamp};
use crate::uuid::{is_v4, lower, upper, Uuid};
use vstd::prelude::*;

verus! {

/// A conversion service over the request queue `req_svc` and the response
/// store `res_svc` that polls the store under the policy `retry`.
pub struct Buffered<Q, S> {
    pub req_svc: Q,
    pub res_svc: S,
    pub retry: Retry,
}

/// The wire form of the identifier `id`.
pub open spec fn wire(id: Uuid) -> WireUuid {
    WireUuid { hi: upper(id@), lo: lower(id@) }
}

/// The request that queues `req`, received at `received`, for the reply
/// identifier `reply`.
pub open spec fn save_request(
    reqid: Uuid,
    reply: Uuid,
    req: ConvertRequest,
    received: Timestamp,
) -> SaveRequest {
    SaveRequest {
        request_id: Some(wire(reqid)),
        reply_id: Some(wire(reply)),
        req: Some(req),
        received: Some(received),
    }
}

/// The request that fetches the response stored under `reply`.
pub open spec fn get_request(reqid: Uuid, reply: Uuid, retry: Retry) -> GetRequest {
    GetRequest { request_id: Some(wire(reqid)), reply_id: Some(wire(reply)), retry: Some(retry) }
}

/// Whether `r` is what the caller gets for the single item `item` of the
/// fetch, or for its end without an item.
pub open spec fn replied(
    item: Option<Result<GetResponse, Status>>,
    r: Result<ConvertResponse, Status>,
) -> bool {
    match item {
        None => fails(r, Code::Internal, "No reply from upstream"@),
        Some(Err(e)) => r == Err::<ConvertResponse, Status>(e),
        Some(Ok(gr)) => match gr.res {
            Some(res) => r == Ok::<ConvertResponse, Status>(res),
            None => fails(r, Code::Internal, "empty response"@),
        },
    }
}

/// Whether `settled` is what the caller of a conversion does on the decision
/// `action` of the fetch: it waits while the fetch waits and takes its answer
/// when the fetch emits or closes.
pub open spec fn settled_as(action: Action<GetResponse>, settled: Action<ConvertResponse>)
    -> bool {
    match action {
        Action::Wait => settled is Wait,
        Action::Try => settled is Try,
        Action::Emit(item) => settled matches Action::Emit(r) && replied(Some(item), r),
        Action::Close => settled matches Action::Emit(r) && replied(None, r),
    }
}

/// Whether queueing `req` under `reply` with a fresh request identifier
/// `reqid` may take the queue `q` to `after` with the answer `r`.
pub open spec fn saved_with<Q: ReqBufferService>(
    q: Q,
    reqid: Uuid,
    reply: Uuid,
    req: ConvertRequest,
    received: Timestamp,
    after: Q,
    r: Result<SaveResponse, Status>,
) -> bool {
    is_v4(reqid@) && q.save_spec(save_request(reqid, reply, req, received), after, r)
}

/// Whether `r` may answer the request, with a fresh request identifier
/// `reqid`, to begin a fetch of `reply` from the store `s`.
pub open spec fn fetched_with<S: ResBufferService>(
    s: S,
    reqid: Uuid,
    reply: Uuid,
    retry: Retry,
    r: Result<S::GetStream, Status>,
) -> bool {
    is_v4(reqid@) && s.get_spec(get_request(reqid, reply, retry), r)
}

/// Whether a conversion of `req` that draws the reply identifier `reply`
/// may take the queue `q` to `after` and begin the fetch `r` from the store
/// `s`: a refusal of the queue is the answer; else the answer is the store's
/// to the request to fetch `reply`.
pub open spec fn begun_with<Q: ReqBufferService, S: ResBufferService>(
    q: Q,
    s: S,
    retry: Retry,
    req: ConvertRequest,
    reply: Uuid,
    after: Q,
    r: Result<S::GetStream, Status>,
) -> bool {
    &&& is_v4(reply@)
    &&& exists|saved: Result<SaveResponse, Status>, received: Timestamp, reqid: Uuid| #[trigger]
        saved_with(q, reqid, reply, req, received, after, saved) && match saved {
            Err(e) => r == Err::<S::GetStream, Status>(e),
            Ok(_) => exists|getid: Uuid| #[trigger] fetched_with(s, getid, reply, retry, r),
        }
}

impl<Q, S> Buffered<Q, S> {
    /// The conversion service over `req_svc` and `res_svc` that polls under
    /// `retry`.
    pub fn new(req_svc: Q, res_svc: S, retry: Retry) -> (b: Self)
        ensures
            b.req_svc == req_svc,
            b.res_svc == res_svc,
            b.retry == retry,
    {
        Buffered { req_svc, res_svc, retry }
    }

    /// The request that queues `req`, received at `received`, for the reply
    /// identifier `reply`.
    pub fn save_request(reqid: Uuid, reply: Uuid, req: ConvertRequest, received: Timestamp) -> (r:
        SaveRequest)
        ensures
            r == save_request(reqid, reply, req, received),
    {
        SaveRequest {
            request_id: Some(WireUuid::from(reqid)),
            reply_id: Some(WireUuid::from(reply)),
            req: Some(req),
            received: Some(received),
        }
    }

    /// The request that fetches the response stored under `reply`.
    pub fn get_request(reqid: Uuid, reply: Uuid, retry: Retry) -> (r: GetRequest)
        ensures
            r == get_request(reqid, reply, retry),
    {
        GetRequest {
            request_id: Some(WireUuid::from(reqid)),
            reply_id: Some(WireUuid::from(reply)),
            retry: Some(retry),
        }
    }

    /// What the caller gets for the single item of the fetch: the response
    /// it carries, or its failure. A fetch that ends without an item, and an
    /// item without a response, are internal failures.
    pub fn reply(item: Option<Result<GetResponse, Status>>) -> (r: Result<ConvertResponse, Status>)
        ensures
            replied(item, r),
    {
        match item {
            None => Err(Status::internal("No reply from upstream")),
            Some(Err(e)) => Err(e),
            Some(Ok(gr)) => match gr.res {
                Some(res) => Ok(res),
                None => Err(Status::internal("empty response")),
            },
        }
    }

    /// What the caller of a conversion does on the decision `action` of the
    /// fetch.
    pub fn settle(action: Action<GetResponse>) -> (settled: Action<ConvertResponse>)
        ensures
            settled_as(action, settled),
    {
        match action {
            Action::Wait => Action::Wait,
            Action::Try => Action::Try,
            Action::Emit(item) => Action::Emit(Self::reply(Some(item))),
            Action::Close => Action::Emit(Self::reply(None)),
        }
    }
}

impl<Q: ReqBufferService, S> Buffered<Q, S> {
    /// Queues `req` for the reply identifier `reply` under a fresh request
    /// identifier.
    pub fn save(&mut self, received: Timestamp, req: ConvertRequest, reply: Uuid) -> (r: Result<
        SaveResponse,
        Status,
    >)
        ensures
            final(self).res_svc == old(self).res_svc,
            final(self).retry == old(self).retry,
            exists|reqid: Uuid| #[trigger]
                saved_with(old(self).req_svc, reqid, reply, req, received, final(self).req_svc, r),
    {
        let reqid: Uuid = Uuid::new_v4();
        let saveq = Self::save_request(reqid, reply, req, received);
        let r = self.req_svc.save(saveq);
        assert(saved_with(old(self).req_svc, reqid, reply, req, received, self.req_svc, r));
        r
    }
}

impl<Q, S: ResBufferService> Buffered<Q, S> {
    /// Begins the fetch of the response stored under `reply`, under a fresh
    /// request identifier.
    pub fn get(&self, reply: Uuid, retry: Retry) -> (r: Result<S::GetStream, Status>)
        ensures
            exists|reqid: Uuid| #[trigger] fetched_with(self.res_svc, reqid, reply, retry, r),
    {
        let reqid: Uuid = Uuid::new_v4();
        let req = Self::get_request(reqid, reply, retry);
        let r = self.res_svc.get(req);
        assert(fetched_with(self.res_svc, reqid, reply, retry, r));
        r
    }

    /// Drives the fetch of a conversion by one pulse and says what the
    /// caller does next: wait for another tick, or take the answer.
    pub fn convert_next(&mut self, stream: &mut S::GetStream, pulse: Pulse) -> (settled: Action<
        ConvertResponse,
    >)
        ensures
            final(self).req_svc == old(self).req_svc,
            final(self).retry == old(self).retry,
            exists|action: Action<GetResponse>|
                {
                    &&& #[trigger] old(self).res_svc.get_next_spec(
                        *old(stream),
                        pulse,
                        final(self).res_svc,
                        *final(stream),
                        action,
                    )
                    &&& settled_as(action, settled)
                },
    {
        let action = self.res_svc.get_next(stream, pulse);
        let ghost witness = action;
        let settled = Self::settle(action);
        assert(old(self).res_svc.get_next_spec(
            *old(stream),
            pulse,
            self.res_svc,
            *stream,
            witness,
        ));
        settled
    }
}

impl<Q: ReqBufferService, S: ResBufferService> Buffered<Q, S> {
    /// Begins a conversion: stamps the time of receipt, draws a fresh reply
    /// identifier, queues the request under it and begins the fetch of the
    /// response that will be stored under it. A refusal of the queue is the
    /// answer and no fetch begins.
    pub fn convert(&mut self, req: ConvertRequest) -> (r: Result<S::GetStream, Status>)
        ensures
            final(self).res_svc == old(self).res_svc,
            final(self).retry == old(self).retry,
            exists|reply: Uuid| #[trigger]
                begun_with(
                    old(self).req_svc,
                    old(self).res_svc,
                    old(self).retry,
                    req,
                    reply,
                    final(self).req_svc,
                    r,
                ),
    {
        let received: Timestamp = now();
        let reply: Uuid = Uuid::new_v4();
        let saved = self.save(received, req, reply);
        let ghost answer = saved;
        let r = match saved {
            Err(e) => Err(e),
            Ok(_) => self.get(reply, self.retry),
        };
        proof {
            let reqid = choose|reqid: Uuid| #[trigger]
                saved_with(old(self).req_svc, reqid, reply, req, received, self.req_svc, answer);
            assert(saved_with(
                old(self).req_svc,
                reqid,
                reply,
                req,
                received,
                self.req_svc,
                answer,
            ));
            assert(begun_with(
                old(self).req_svc,
                old(self).res_svc,
                old(self).retry,
                req,
                reply,
                self.req_svc,
                r,
            ));
        }
        r
    }
}

/// A conversion succeeds end to end. The caller begins a conversion on an
/// empty queue; a worker loads from the queue in time, is handed exactly the
/// caller's request with its reply identifier, and stores a result under that
/// identifier in a store that has room; the caller's next try, made in time,
/// then takes that result out of the store, and the caller's answer is the
/// result.
pub proof fn lemma_conversion_round_trip(
    queue: crate::buffer::vecdeque::svc::BufSvcSt,
    store: crate::buffer::res::btree::svc::BufSvcSt,
    retry: Retry,
    req: ConvertRequest,
    reply: Uuid,
    queued: crate::buffer::vecdeque::svc::BufSvcSt,
    begun: Result<crate::buffer::res::btree::svc::Fetch, Status>,
    worker: crate::poll::Poller,
    worker_elapsed: crate::time::Duration,
    drained: crate::buffer::vecdeque::svc::BufSvcSt,
    worker_after: crate::poll::Poller,
    loaded: Action<crate::rpc::req_buf::LoadResponse>,
    result: crate::rpc::res_buf::SetRequest,
    stored: crate::buffer::res::btree::svc::BufSvcSt,
    written: Result<crate::rpc::res_buf::SetResponse, Status>,
    elapsed: crate::time::Duration,
    fetched: crate::buffer::res::btree::svc::BufSvcSt,
    stream_after: crate::buffer::res::btree::svc::Fetch,
    action: Action<GetResponse>,
    settled: Action<ConvertResponse>,
)
    requires
        queue@.len() == 0,
        retry.retry_max > 0,
        begun_with(queue, store, retry, req, reply, queued, begun),
        worker@.tried < worker@.retry_max,
        worker_elapsed@ <= worker@.timeout,
        queued.load_next_spec(
            worker,
            Pulse::Tick(Some(worker_elapsed)),
            drained,
            worker_after,
            loaded,
        ),
        crate::buffer::res::cmd::set::SetReq::missing(result) is None,
        loaded matches Action::Emit(Ok(lr)) ==> result.reply_id == lr.reply_id,
        crate::buffer::res::btree::svc::admits(store@, store.max_size()),
        !store@.contains_key(reply@),
        store.set_spec(result, stored, written),
        begun matches Ok(f) ==> elapsed@ <= f.poller@.timeout && stored.get_next_spec(
            f,
            Pulse::Tick(Some(elapsed)),
            fetched,
            stream_after,
            action,
        ),
        settled_as(action, settled),
    ensures
        begun is Ok,
        loaded matches Action::Emit(Ok(lr)) && lr.req == Some(req) && lr.reply_id == Some(
            wire(reply),
        ),
        drained@.len() == 0,
        written is Ok,
        settled == Action::Emit(Ok::<ConvertResponse, Status>(result.res->0)),
        !fetched@.contains_key(reply@),
{
    crate::uuid::lemma_join_split(reply@);
    let (saved, received, reqid) = choose|
        saved: Result<SaveResponse, Status>,
        received: Timestamp,
        reqid: Uuid,
    | #[trigger]
        saved_with(queue, reqid, reply, req, received, queued, saved) && match saved {
            Err(e) => begun == Err::<crate::buffer::res::btree::svc::Fetch, Status>(e),
            Ok(_) => exists|getid: Uuid| #[trigger]
                fetched_with(store, getid, reply, retry, begun),
        };
    let save = save_request(reqid, reply, req, received);
    assert(crate::buffer::cmd::save::req::SaveReq::missing(save) is None);
    let si = choose|si: crate::buffer::cmd::save::req::SaveInfo| #[trigger]
        crate::buffer::vecdeque::svc::saved_as(queue@, save, si, queued@, saved);
    assert(queued@ =~= seq![si]);
    assert(queued@[0] == si);
    assert(queued@.drop_first() =~= Seq::empty());
    let getid = choose|getid: Uuid| #[trigger] fetched_with(store, getid, reply, retry, begun);
    assert(crate::buffer::res::cmd::get::GetReq::missing(get_request(getid, reply, retry))
        is None);
    let now = choose|now: Timestamp| #[trigger]
        crate::buffer::res::btree::svc::set_served(
            store@,
            store.max_size(),
            result,
            now,
            stored@,
            written,
        );
    assert(crate::buffer::res::btree::svc::set_key(result) == reply@);
    assert(stored@.contains_key(reply@));
    assert(stored@[reply@].res == result.res);
}

} // verus!
