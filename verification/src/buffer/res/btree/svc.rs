//! The response store: a bounded buffer of completed responses, keyed by
//! reply identifier, that wait for the callers that asked for them.
//!
//! The store is a plain value. One task owns it and applies the commands
//! that the other tasks send, one after the other, so every command sees the
//! whole effect of the one before and none of the one after.

use crate::buffer::res::cmd::del::DelReq;
use crate::buffer::res::cmd::get::GetReq;
use crate::buffer::res::cmd::set::SetReq;
use crate::poll::{decide, missed, overdue, Action, Event, Poller, PollerView, Pulse};
use crate::rpc::res_buf::{
    DelRequest, DelResponse, GetRequest, GetResponse, LenRequest, LenResponse, ResBufferService,
    SetRequest, SetResponse,
};
use crate::status::{fails, with_count, with_id, Code, Status};
use crate::text::{hex, push_hex};
use crate::time::{now, Duration, Timestamp};
use crate::uuid::{join, Uuid};
use std::collections::BTreeMap;
use vstd::prelude::*;
use vstd::string::*;

verus! {

broadcast use vstd::laws_cmp::group_laws_cmp;

/// A command to the store.
#[derive(Debug, PartialEq, Eq)]
pub enum Req {
    /// Store the response of this request under its reply identifier.
    Put(SetReq),
    /// Take out the response stored under this reply identifier.
    Get(Uuid),
    /// Drop the response stored under this reply identifier.
    Del(Uuid),
}

/// The store's answer to a command.
#[derive(Debug, PartialEq, Eq)]
pub enum Reply {
    /// The time the response was stored, or why it was not.
    Put(Result<Timestamp, Status>),
    /// The response that was stored, or why there is none.
    Get(Result<GetResponse, Status>),
    /// Whether a response was dropped.
    Del(Result<(), Status>),
}

/// Whether a store that holds `m` under the maximum `max_size` has room for
/// one more response: it has unless its size exceeds the maximum.
pub open spec fn admits(m: Map<u128, GetResponse>, max_size: usize) -> bool {
    m.len() <= max_size
}

/// The store after an attempt to store `v` under `k`: a full store and an
/// occupied key leave it as it was.
pub open spec fn after_set(m: Map<u128, GetResponse>, max_size: usize, k: u128, v: GetResponse)
    -> Map<u128, GetResponse> {
    if admits(m, max_size) && !m.contains_key(k) {
        m.insert(k, v)
    } else {
        m
    }
}

/// The text of the failure that refuses a second response for `k`.
pub open spec fn occupied_text(k: u128) -> Seq<char> {
    "response for reply id("@ + hex(k as nat, 32) + ") already exists"@
}

/// Whether `r` is the answer to an attempt to store a response under `k` at
/// the time `now` in a store that holds `m`.
pub open spec fn set_answer(
    m: Map<u128, GetResponse>,
    max_size: usize,
    k: u128,
    now: Timestamp,
    r: Result<Timestamp, Status>,
) -> bool {
    if !admits(m, max_size) {
        r matches Err(e) && e.is(
            Code::Unavailable,
            with_count("too many requests. size: "@, m.len()),
        )
    } else if m.contains_key(k) {
        r matches Err(e) && e.is(Code::AlreadyExists, occupied_text(k))
    } else {
        r == Ok::<Timestamp, Status>(now)
    }
}

/// Whether `r` is the answer to an attempt to take the response stored under
/// `k` out of a store that holds `m`.
pub open spec fn get_answer(m: Map<u128, GetResponse>, k: u128, r: Result<GetResponse, Status>)
    -> bool {
    if m.contains_key(k) {
        r == Ok::<GetResponse, Status>(m[k])
    } else {
        r matches Err(e) && e.is(
            Code::NotFound,
            with_id("No reply found(for now). reply id: "@, k),
        )
    }
}

/// Whether `r` is the answer to an attempt to drop the response stored under
/// `k` from a store that holds `m`.
pub open spec fn del_answer(m: Map<u128, GetResponse>, k: u128, r: Result<(), Status>) -> bool {
    if m.contains_key(k) {
        r is Ok
    } else {
        r matches Err(e) && e.is(
            Code::NotFound,
            with_id("No reply found(may be consumed). reply id: "@, k),
        )
    }
}

/// Whether an attempt to store the response of `req` at the time `now` in a
/// store that holds `m` leaves `after` and answers `r`.
pub open spec fn set_done(
    m: Map<u128, GetResponse>,
    max_size: usize,
    req: SetReq,
    now: Timestamp,
    after: Map<u128, GetResponse>,
    r: Result<Timestamp, Status>,
) -> bool {
    &&& after == after_set(m, max_size, req.reply_id()@, req.stored(now))
    &&& set_answer(m, max_size, req.reply_id()@, now, r)
}

/// Whether the command `req`, applied at the time `now` to a store that
/// holds `m`, leaves `after` and answers `reply`.
pub open spec fn handled(
    m: Map<u128, GetResponse>,
    max_size: usize,
    req: Req,
    now: Timestamp,
    after: Map<u128, GetResponse>,
    reply: Reply,
) -> bool {
    match req {
        Req::Put(q) => reply matches Reply::Put(r) && set_done(m, max_size, q, now, after, r),
        Req::Get(id) => {
            &&& after == m.remove(id@)
            &&& reply matches Reply::Get(r)
            &&& get_answer(m, id@, r)
        },
        Req::Del(id) => {
            &&& after == m.remove(id@)
            &&& reply matches Reply::Del(r)
            &&& del_answer(m, id@, r)
        },
    }
}

impl Req {
    /// Stores the response of `req` under its reply identifier, stamped with
    /// `now`, and answers with `now`. A store whose size exceeds `max_size`
    /// refuses; so does one that already holds a response under that
    /// identifier. A refusal leaves `d` as it was.
    pub fn handle_set(
        d: &mut BTreeMap<u128, GetResponse>,
        req: SetReq,
        max_size: usize,
        now: Timestamp,
    ) -> (r: Result<Timestamp, Status>)
        ensures
            final(d)@ == after_set(old(d)@, max_size, req.reply_id()@, req.stored(now)),
            set_answer(old(d)@, max_size, req.reply_id()@, now, r),
    {
        let sz: usize = d.len();
        let too_many: bool = max_size < sz;
        if too_many {
            return Err(Status::about_size(Code::Unavailable, "too many requests. size: ", sz));
        }
        let reply_id: Uuid = req.as_reply_id();
        let key: u128 = reply_id.as_u128();
        let dup_found: bool = d.contains_key(&key);
        if dup_found {
            let mut message = String::from_str("response for reply id(");
            push_hex(&mut message, key, 32);
            message.append(") already exists");
            return Err(Status::new(Code::AlreadyExists, message));
        }
        let gr: GetResponse = GetResponse::from(req, now);
        d.insert(key, gr);
        Ok(now)
    }

    /// Takes the response stored under `reply_id` out of `d` and answers
    /// with it; where there is none, answers that nothing was found.
    pub fn handle_get(d: &mut BTreeMap<u128, GetResponse>, reply_id: Uuid) -> (r: Result<
        GetResponse,
        Status,
    >)
        ensures
            final(d)@ == old(d)@.remove(reply_id@),
            get_answer(old(d)@, reply_id@, r),
    {
        let key: u128 = reply_id.as_u128();
        match d.remove(&key) {
            Some(v) => Ok(v),
            None => Err(
                Status::about_id(Code::NotFound, "No reply found(for now). reply id: ", reply_id),
            ),
        }
    }

    /// Drops the response stored under `reply_id` from `d`; where there is
    /// none, answers that nothing was found.
    pub fn handle_del(d: &mut BTreeMap<u128, GetResponse>, reply_id: Uuid) -> (r: Result<
        (),
        Status,
    >)
        ensures
            final(d)@ == old(d)@.remove(reply_id@),
            del_answer(old(d)@, reply_id@, r),
    {
        let key: u128 = reply_id.as_u128();
        match d.remove(&key) {
            Some(_) => Ok(()),
            None => Err(
                Status::about_id(
                    Code::NotFound,
                    "No reply found(may be consumed). reply id: ",
                    reply_id,
                ),
            ),
        }
    }
}

/// The response store.
pub struct BufSvcSt {
    items: BTreeMap<u128, GetResponse>,
    max_size: usize,
}

impl View for BufSvcSt {
    type V = Map<u128, GetResponse>;

    /// The stored responses by the value of their reply identifier.
    closed spec fn view(&self) -> Map<u128, GetResponse> {
        self.items@
    }
}

impl BufSvcSt {
    /// The configured maximum.
    pub closed spec fn max_size(&self) -> usize {
        self.max_size
    }

    /// The number of stored responses.
    pub fn len(&self) -> (n: usize)
        ensures
            n == self@.len(),
            self@.dom().finite(),
    {
        self.items.len()
    }

    /// Stores the response of `req` under its reply identifier, stamped with
    /// `now`.
    pub fn set_at(&mut self, req: SetReq, now: Timestamp) -> (r: Result<Timestamp, Status>)
        ensures
            final(self).max_size() == old(self).max_size(),
            set_done(old(self)@, old(self).max_size(), req, now, final(self)@, r),
    {
        Req::handle_set(&mut self.items, req, self.max_size, now)
    }

    /// Stores the response of `req` under its reply identifier, stamped with
    /// the time of writing, and answers with that time.
    pub fn set(&mut self, req: SetReq) -> (r: Result<Timestamp, Status>)
        ensures
            final(self).max_size() == old(self).max_size(),
            exists|now: Timestamp| #[trigger]
                set_done(old(self)@, old(self).max_size(), req, now, final(self)@, r),
    {
        self.set_at(req, now())
    }

    /// Takes out the response stored under `reply_id`. A response is handed
    /// out once: it is gone from the store when this returns.
    pub fn get1(&mut self, reply_id: Uuid) -> (r: Result<GetResponse, Status>)
        ensures
            final(self).max_size() == old(self).max_size(),
            final(self)@ == old(self)@.remove(reply_id@),
            get_answer(old(self)@, reply_id@, r),
    {
        Req::handle_get(&mut self.items, reply_id)
    }

    /// Drops the response stored under `id` and answers with `now`, the time
    /// of removal.
    pub fn del_at(&mut self, id: Uuid, now: Timestamp) -> (r: Result<Timestamp, Status>)
        ensures
            final(self).max_size() == old(self).max_size(),
            final(self)@ == old(self)@.remove(id@),
            r is Ok <==> old(self)@.contains_key(id@),
            r matches Ok(t) ==> t == now,
            r matches Err(e) ==> e.is(
                Code::NotFound,
                with_id("No reply found(may be consumed). reply id: "@, id@),
            ),
    {
        match Req::handle_del(&mut self.items, id) {
            Ok(_) => Ok(now),
            Err(e) => Err(e),
        }
    }

    /// Drops the response stored under `id` and answers with the time of
    /// removal.
    pub fn del(&mut self, id: Uuid) -> (r: Result<Timestamp, Status>)
        ensures
            final(self).max_size() == old(self).max_size(),
            final(self)@ == old(self)@.remove(id@),
            r is Ok <==> old(self)@.contains_key(id@),
            r matches Err(e) ==> e.is(
                Code::NotFound,
                with_id("No reply found(may be consumed). reply id: "@, id@),
            ),
    {
        match Req::handle_del(&mut self.items, id) {
            Ok(_) => Ok(now()),
            Err(e) => Err(e),
        }
    }

    /// Begins the poll that fetches the response for `req`: the reply
    /// identifier to ask for and a poll under the request's policy that has
    /// not tried yet.
    pub fn get(&self, req: &GetReq) -> (begun: (Uuid, Poller))
        ensures
            begun.0 == req.reply_id(),
            begun.1@ == (crate::poll::PollerView {
                retry_max: req.retry()@.retry_max,
                timeout: req.retry()@.timeout,
                tried: 0,
            }),
    {
        (req.as_reply_id(), Poller::new(req.as_retry()))
    }

    /// One try of a poll: checks the clock reading `elapsed` against
    /// `timeout` and, where the poll may go on, takes out the response
    /// stored under `reply_id`. `i` is the number of earlier tries.
    pub fn try_get(
        &mut self,
        reply_id: Uuid,
        timeout: &Duration,
        i: u64,
        elapsed: Option<Duration>,
    ) -> (r: Result<GetResponse, Status>)
        ensures
            final(self).max_size() == old(self).max_size(),
            match overdue::<GetResponse>(timeout@, elapsed, i) {
                Some(d) => final(self)@ == old(self)@ && Action::Emit(r).amounts_to(d),
                None => final(self)@ == old(self)@.remove(reply_id@) && get_answer(
                    old(self)@,
                    reply_id@,
                    r,
                ),
            },
    {
        match Poller::check(timeout, elapsed, i) {
            Err(e) => Err(e),
            Ok(_) => self.get1(reply_id),
        }
    }

    /// Applies one command, with `now` as the time of writing.
    pub fn handle_at(&mut self, req: Req, now: Timestamp) -> (reply: Reply)
        ensures
            final(self).max_size() == old(self).max_size(),
            handled(old(self)@, old(self).max_size(), req, now, final(self)@, reply),
    {
        match req {
            Req::Put(q) => Reply::Put(self.set_at(q, now)),
            Req::Get(id) => Reply::Get(self.get1(id)),
            Req::Del(id) => Reply::Del(Req::handle_del(&mut self.items, id)),
        }
    }

    /// Applies one command.
    pub fn handle(&mut self, req: Req) -> (reply: Reply)
        ensures
            final(self).max_size() == old(self).max_size(),
            exists|now: Timestamp| #[trigger]
                handled(old(self)@, old(self).max_size(), req, now, final(self)@, reply),
    {
        self.handle_at(req, now())
    }
}

/// A fetch in progress: the reply identifier asked for and the poll that
/// asks for it.
#[derive(Clone, Copy, Debug, PartialEq, Eq)]
pub struct Fetch {
    pub reply_id: Uuid,
    pub poller: Poller,
}

/// The value of the reply identifier that the request `req` names.
pub open spec fn set_key(req: SetRequest) -> u128 {
    join(req.reply_id->0.hi, req.reply_id->0.lo)
}

/// The entry that the store keeps for the request `req` when it is written
/// at the time `now`.
pub open spec fn set_entry(req: SetRequest, now: Timestamp) -> GetResponse {
    GetResponse {
        res: req.res,
        received: req.received,
        saved: req.saved,
        converted: req.converted,
        set: Some(now),
    }
}

/// Whether `r` carries the answer `inner` of the store to the caller.
pub open spec fn set_reply(inner: Result<Timestamp, Status>, r: Result<SetResponse, Status>)
    -> bool {
    match inner {
        Ok(t) => r == Ok::<SetResponse, Status>(SetResponse { set: Some(t) }),
        Err(e) => r == Err::<SetResponse, Status>(e),
    }
}

/// Whether writing the complete request `req` at the time `now` into a store
/// that holds `m` leaves `after` and answers `r`.
pub open spec fn set_served(
    m: Map<u128, GetResponse>,
    max_size: usize,
    req: SetRequest,
    now: Timestamp,
    after: Map<u128, GetResponse>,
    r: Result<SetResponse, Status>,
) -> bool {
    &&& after == after_set(m, max_size, set_key(req), set_entry(req, now))
    &&& if !admits(m, max_size) {
        fails(r, Code::Unavailable, with_count("too many requests. size: "@, m.len()))
    } else if m.contains_key(set_key(req)) {
        fails(r, Code::AlreadyExists, occupied_text(set_key(req)))
    } else {
        r == Ok::<SetResponse, Status>(SetResponse { set: Some(now) })
    }
}

impl ResBufferService for BufSvcSt {
    type GetStream = Fetch;

    /// A request that lacks a field is refused as an invalid argument. Any
    /// other begins a poll for its reply identifier under its retry policy.
    open spec fn get_spec(&self, req: GetRequest, r: Result<Fetch, Status>) -> bool {
        match GetReq::missing(req) {
            Some(text) => fails(r, Code::InvalidArgument, text),
            None => {
                &&& r matches Ok(f)
                &&& f.reply_id@ == join(req.reply_id->0.hi, req.reply_id->0.lo)
                &&& f.poller@ == (PollerView {
                    retry_max: req.retry->0.retry_max,
                    timeout: req.retry->0.policy().timeout,
                    tried: 0,
                })
            },
        }
    }

    /// At its start a poll waits where its policy allows a try and closes
    /// where it allows none. At a tick it fails where the clock is broken or
    /// past the timeout; else it tries: the response stored under the reply
    /// identifier, where there is one, is taken out and emitted, and an
    /// absent one counts one try and has the poll wait again, or close after
    /// the last try.
    open spec fn get_next_spec(
        &self,
        stream: Fetch,
        pulse: Pulse,
        after: Self,
        stream_after: Fetch,
        action: Action<GetResponse>,
    ) -> bool {
        &&& after.max_size() == self.max_size()
        &&& stream_after.reply_id == stream.reply_id
        &&& match pulse {
            Pulse::Start => {
                &&& after@ == self@
                &&& stream_after.poller@ == stream.poller@
                &&& action.amounts_to(decide::<GetResponse>(stream.poller@, Event::Start).1)
            },
            Pulse::Tick(elapsed) => match overdue::<GetResponse>(
                stream.poller@.timeout,
                elapsed,
                stream.poller@.tried,
            ) {
                Some(d) => {
                    &&& after@ == self@
                    &&& stream_after.poller@ == stream.poller@
                    &&& action.amounts_to(d)
                },
                None => if self@.contains_key(stream.reply_id@) {
                    &&& after@ == self@.remove(stream.reply_id@)
                    &&& stream_after.poller@ == stream.poller@
                    &&& action == Action::Emit(
                        Ok::<GetResponse, Status>(self@[stream.reply_id@]),
                    )
                } else {
                    &&& after@ == self@
                    &&& stream_after.poller@ == missed::<GetResponse>(stream.poller@).0
                    &&& action.amounts_to(missed::<GetResponse>(stream.poller@).1)
                },
            },
        }
    }

    /// A request that lacks a field is refused as an invalid argument, a
    /// store whose size exceeds its maximum refuses as unavailable and an
    /// occupied reply identifier is refused as already existing, all without
    /// a change. Any other request is stored under its reply identifier,
    /// stamped with the time of writing, which is the answer.
    open spec fn set_spec(&self, req: SetRequest, after: Self, r: Result<SetResponse, Status>)
        -> bool {
        &&& after.max_size() == self.max_size()
        &&& match SetReq::missing(req) {
            Some(text) => after@ == self@ && fails(r, Code::InvalidArgument, text),
            None => exists|now: Timestamp| #[trigger]
                set_served(self@, self.max_size(), req, now, after@, r),
        }
    }

    /// A request that lacks a field is refused as an invalid argument. The
    /// response stored under the reply identifier is dropped and the time of
    /// removal answered; where there is none, nothing is found.
    open spec fn del_spec(&self, req: DelRequest, after: Self, r: Result<DelResponse, Status>)
        -> bool {
        &&& after.max_size() == self.max_size()
        &&& match (req.request_id, req.reply_id) {
            (None, _) => after@ == self@ && fails(
                r,
                Code::InvalidArgument,
                "request id missing"@,
            ),
            (Some(q), None) => after@ == self@ && fails(
                r,
                Code::InvalidArgument,
                with_id("reply id missing. request id: "@, join(q.hi, q.lo)),
            ),
            (Some(_), Some(p)) => {
                &&& after@ == self@.remove(join(p.hi, p.lo))
                &&& if self@.contains_key(join(p.hi, p.lo)) {
                    r matches Ok(d) && d.removed is Some
                } else {
                    fails(
                        r,
                        Code::NotFound,
                        with_id("No reply found(may be consumed). reply id: "@, join(p.hi, p.lo)),
                    )
                }
            },
        }
    }

    /// The answer is the number of stored responses.
    open spec fn len_spec(&self, req: LenRequest, r: Result<LenResponse, Status>) -> bool {
        r == Ok::<LenResponse, Status>(LenResponse { count: self@.len() as u64 })
    }

    fn get(&self, req: GetRequest) -> (r: Result<Fetch, Status>) {
        match GetReq::try_from(req) {
            Ok(checked) => {
                let begun = self.get(&checked);
                Ok(Fetch { reply_id: begun.0, poller: begun.1 })
            },
            Err(e) => Err(e),
        }
    }

    fn get_next(&mut self, stream: &mut Fetch, pulse: Pulse) -> (action: Action<GetResponse>) {
        match pulse {
            Pulse::Start => stream.poller.step(Event::Start),
            Pulse::Tick(elapsed) => {
                match stream.poller.step::<GetResponse>(Event::Tick(elapsed)) {
                    Action::Try => {
                        let r: Result<GetResponse, Status> = self.get1(stream.reply_id);
                        assert(!old(self)@.contains_key(stream.reply_id@) ==> self@ =~= old(
                            self,
                        )@);
                        stream.poller.step(Event::Reply(r))
                    },
                    other => other,
                }
            },
        }
    }

    fn set(&mut self, req: SetRequest) -> (r: Result<SetResponse, Status>) {
        let checked: SetReq = match SetReq::try_from(req) {
            Ok(c) => c,
            Err(e) => {
                return Err(e);
            },
        };
        let t: Timestamp = now();
        let r = match self.set_at(checked, t) {
            Ok(set) => Ok(SetResponse { set: Some(set) }),
            Err(e) => Err(e),
        };
        assert(set_served(old(self)@, old(self).max_size(), req, t, self@, r));
        r
    }

    fn del(&mut self, req: DelRequest) -> (r: Result<DelResponse, Status>) {
        let checked: DelReq = match DelReq::try_from(req) {
            Ok(c) => c,
            Err(e) => {
                return Err(e);
            },
        };
        let reply_id: Uuid = checked.as_reply_id();
        match self.del(reply_id) {
            Ok(removed) => Ok(DelResponse { removed: Some(removed) }),
            Err(e) => Err(e),
        }
    }

    fn len(&self, req: LenRequest) -> (r: Result<LenResponse, Status>) {
        let n: usize = self.len();
        Ok(LenResponse { count: n as u64 })
    }
}

/// An empty store with the maximum `max_size`.
pub fn buf_svc_st_new(max_size: usize) -> (s: BufSvcSt)
    ensures
        s@ == Map::<u128, GetResponse>::empty(),
        s.max_size() == max_size,
{
    BufSvcSt { items: BTreeMap::new(), max_size }
}

/// An empty response store with the maximum `max_size`.
pub fn res_buffer_service_new(max_size: usize) -> (s: BufSvcSt)
    ensures
        s@ == Map::<u128, GetResponse>::empty(),
        s.max_size() == max_size,
{
    buf_svc_st_new(max_size)
}

/// A response that was stored is handed out exactly once: the first fetch
/// of its key answers with it, a fetch straight after finds nothing, and the
/// store is then what it was before the response came.
pub proof fn lemma_stored_response_is_fetched_once(
    m: Map<u128, GetResponse>,
    max_size: usize,
    k: u128,
    v: GetResponse,
    first: Result<GetResponse, Status>,
    second: Result<GetResponse, Status>,
)
    requires
        admits(m, max_size),
        !m.contains_key(k),
        get_answer(after_set(m, max_size, k, v), k, first),
        get_answer(after_set(m, max_size, k, v).remove(k), k, second),
    ensures
        first == Ok::<GetResponse, Status>(v),
        second matches Err(e) && e.code == Code::NotFound,
        after_set(m, max_size, k, v).remove(k) == m,
{
    assert(m.insert(k, v).remove(k) =~= m);
}

/// A second response for an occupied key is refused as already existing and
/// the first stays: the store is left as it was, and a fetch of the key
/// still answers with the first response.
pub proof fn lemma_occupied_key_keeps_response(
    m: Map<u128, GetResponse>,
    max_size: usize,
    k: u128,
    second: GetResponse,
    now: Timestamp,
    r: Result<Timestamp, Status>,
    fetched: Result<GetResponse, Status>,
)
    requires
        m.contains_key(k),
        admits(m, max_size),
        set_answer(m, max_size, k, now, r),
        get_answer(after_set(m, max_size, k, second), k, fetched),
    ensures
        r matches Err(e) && e.code == Code::AlreadyExists,
        after_set(m, max_size, k, second) == m,
        fetched == Ok::<GetResponse, Status>(m[k]),
{
}

/// A store that has no room refuses every response as unavailable and is
/// left as it was.
pub proof fn lemma_full_store_refuses(
    m: Map<u128, GetResponse>,
    max_size: usize,
    k: u128,
    v: GetResponse,
    now: Timestamp,
    r: Result<Timestamp, Status>,
)
    requires
        !admits(m, max_size),
        set_answer(m, max_size, k, now, r),
    ensures
        r matches Err(e) && e.code == Code::Unavailable,
        after_set(m, max_size, k, v) == m,
{
}

/// The bound holds through every command: a store that holds no more than
/// one response above its maximum never comes to hold more than that.
pub proof fn lemma_bounded(m: Map<u128, GetResponse>, max_size: usize, k: u128, v: GetResponse)
    requires
        m.dom().finite(),
        m.len() <= max_size + 1,
    ensures
        after_set(m, max_size, k, v).dom().finite(),
        after_set(m, max_size, k, v).len() <= max_size + 1,
        m.remove(k).dom().finite(),
        m.remove(k).len() <= max_size + 1,
{
    broadcast use vstd::map::group_map_axioms;
    broadcast use vstd::set::group_set_axioms;

    if m.contains_key(k) {
        assert(m.remove(k).len() == m.len() - 1);
    } else {
        assert(m.remove(k) =~= m);
    }
}

} // verus!
