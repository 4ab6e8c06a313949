//! The request queue: a bounded first-in, first-out buffer of queued
//! requests that wait for an indirect consumer.
//!
//! The queue is a plain value. One task owns it and applies the commands
//! that the other tasks send, one after the other.

use crate::buffer::cmd::load::req::LoadReq;
use crate::buffer::cmd::save::req::{SaveInfo, SaveReq};
use crate::poll::{decide, missed, overdue, Action, Event, Poller, PollerView, Pulse};
use crate::rpc::common::Uuid as WireUuid;
use crate::rpc::req_buf::{
    LoadRequest, LoadResponse, ReqBufferService, SaveRequest, SaveResponse,
};
use crate::status::{fails, with_count, Code, Status};
use crate::time::{now, Duration, Timestamp};
use crate::uuid::{lower, upper};
use std::collections::VecDeque;
use vstd::prelude::*;

verus! {

/// A command to the queue.
#[derive(Debug, PartialEq, Eq)]
pub enum Req {
    /// Append this entry at the tail.
    PushBack(SaveInfo),
    /// Remove the entry at the head.
    PopFront,
}

/// The queue's answer to a command.
#[derive(Debug, PartialEq, Eq)]
pub enum Reply {
    /// The time the entry was accepted, or why it was not.
    PushBack(Result<Timestamp, Status>),
    /// The entry that was at the head, or why there is none.
    PopFront(Result<SaveInfo, Status>),
}

/// Whether a queue that holds `q` under the maximum `max_size` admits one
/// more entry: it does unless its size exceeds the maximum.
pub open spec fn admits(q: Seq<SaveInfo>, max_size: usize) -> bool {
    q.len() <= max_size
}

/// The queue after an attempt to append `si`.
pub open spec fn after_save(q: Seq<SaveInfo>, max_size: usize, si: SaveInfo) -> Seq<SaveInfo> {
    if admits(q, max_size) {
        q.push(si)
    } else {
        q
    }
}

/// The queue after an attempt to remove its head.
pub open spec fn after_get(q: Seq<SaveInfo>) -> Seq<SaveInfo> {
    if q.len() > 0 {
        q.drop_first()
    } else {
        q
    }
}

/// Whether `r` is the answer to an attempt, made at the time `now`, to
/// append an entry to a queue that holds `q`.
pub open spec fn save_answer(
    q: Seq<SaveInfo>,
    max_size: usize,
    now: Timestamp,
    r: Result<Timestamp, Status>,
) -> bool {
    if admits(q, max_size) {
        r == Ok::<Timestamp, Status>(now)
    } else {
        fails(r, Code::Unavailable, with_count("too many requests. size: "@, q.len()))
    }
}

/// Whether `r` is the answer to an attempt to remove the head of a queue
/// that holds `q`.
pub open spec fn get_answer(q: Seq<SaveInfo>, r: Result<SaveInfo, Status>) -> bool {
    if q.len() > 0 {
        r == Ok::<SaveInfo, Status>(q[0])
    } else {
        fails(r, Code::NotFound, "no request for now. try again"@)
    }
}

/// The queue after one command.
pub open spec fn applied(q: Seq<SaveInfo>, max_size: usize, req: Req) -> Seq<SaveInfo> {
    match req {
        Req::PushBack(si) => after_save(q, max_size, si),
        Req::PopFront => after_get(q),
    }
}

/// Whether `reply` is the answer to the command `req`, applied at the time
/// `now` to a queue that holds `q`.
pub open spec fn answered(
    q: Seq<SaveInfo>,
    max_size: usize,
    req: Req,
    now: Timestamp,
    reply: Reply,
) -> bool {
    match req {
        Req::PushBack(_) => reply matches Reply::PushBack(r) && save_answer(q, max_size, now, r),
        Req::PopFront => reply matches Reply::PopFront(r) && get_answer(q, r),
    }
}

/// The response that hands the queued entry `si` to its consumer.
pub open spec fn load_response(si: SaveInfo) -> LoadResponse {
    LoadResponse {
        req: Some(si.req().request()),
        reply_id: Some(
            WireUuid { hi: upper(si.req().reply_id()@), lo: lower(si.req().reply_id()@) },
        ),
        received: Some(si.req().received()),
        saved: Some(si.saved()),
    }
}

impl Req {
    /// Appends `si` at the tail of `mv` unless the size of `mv` exceeds
    /// `max_size`, and answers with the time of acceptance, `now`. A refused
    /// entry leaves `mv` as it was.
    pub fn handle_save(
        mv: &mut VecDeque<SaveInfo>,
        si: SaveInfo,
        max_size: usize,
        now: Timestamp,
    ) -> (r: Result<Timestamp, Status>)
        ensures
            final(mv)@ == after_save(old(mv)@, max_size, si),
            save_answer(old(mv)@, max_size, now, r),
    {
        let sz: usize = mv.len();
        let too_many: bool = max_size < sz;
        if too_many {
            Err(Status::about_size(Code::Unavailable, "too many requests. size: ", sz))
        } else {
            mv.push_back(si);
            Ok(now)
        }
    }

    /// Removes the head of `mv` and answers with it; an empty `mv` answers
    /// that nothing was found.
    pub fn handle_get(mv: &mut VecDeque<SaveInfo>) -> (r: Result<SaveInfo, Status>)
        ensures
            final(mv)@ == after_get(old(mv)@),
            get_answer(old(mv)@, r),
    {
        match mv.pop_front() {
            None => Err(Status::not_found("no request for now. try again")),
            Some(si) => {
                assert(mv@ =~= old(mv)@.drop_first());
                Ok(si)
            },
        }
    }
}

impl LoadResponse {
    /// The response that hands the queued entry `si` to its consumer.
    pub fn from(si: SaveInfo) -> (r: Self)
        ensures
            r == load_response(si),
    {
        let saved: Timestamp = si.as_saved();
        let req: SaveReq = si.into_req();
        let reply_id = req.as_reply_id();
        let received: Timestamp = *req.as_received();
        LoadResponse {
            req: Some(req.into_request()),
            reply_id: Some(WireUuid::from(reply_id)),
            received: Some(received),
            saved: Some(saved),
        }
    }
}

/// The request queue.
pub struct BufSvcSt {
    items: VecDeque<SaveInfo>,
    max_size: usize,
}

impl View for BufSvcSt {
    type V = Seq<SaveInfo>;

    /// The queued entries, oldest first.
    closed spec fn view(&self) -> Seq<SaveInfo> {
        self.items@
    }
}

impl BufSvcSt {
    /// The configured maximum.
    pub closed spec fn max_size(&self) -> usize {
        self.max_size
    }

    /// The number of queued entries.
    pub fn len(&self) -> (n: usize)
        ensures
            n == self@.len(),
    {
        self.items.len()
    }

    /// Appends `i` at the tail unless the queue's size exceeds its maximum,
    /// and answers with `now`.
    pub fn save_at(&mut self, i: SaveInfo, now: Timestamp) -> (r: Result<Timestamp, Status>)
        ensures
            final(self).max_size() == old(self).max_size(),
            final(self)@ == after_save(old(self)@, old(self).max_size(), i),
            save_answer(old(self)@, old(self).max_size(), now, r),
    {
        Req::handle_save(&mut self.items, i, self.max_size, now)
    }

    /// Appends `i` at the tail unless the queue's size exceeds its maximum,
    /// and answers with the time of acceptance.
    pub fn save(&mut self, i: SaveInfo) -> (r: Result<Timestamp, Status>)
        ensures
            final(self).max_size() == old(self).max_size(),
            final(self)@ == after_save(old(self)@, old(self).max_size(), i),
            exists|now: Timestamp| #[trigger]
                save_answer(old(self)@, old(self).max_size(), now, r),
    {
        self.save_at(i, now())
    }

    /// Removes the head and answers with it; an empty queue answers that
    /// nothing was found.
    pub fn pop(&mut self) -> (r: Result<SaveInfo, Status>)
        ensures
            final(self).max_size() == old(self).max_size(),
            final(self)@ == after_get(old(self)@),
            get_answer(old(self)@, r),
    {
        Req::handle_get(&mut self.items)
    }

    /// One try of a poll: checks the clock reading `elapsed` against
    /// `timeout` and, where the poll may go on, removes the head. `i` is the
    /// number of earlier tries.
    pub fn try_get(&mut self, timeout: &Duration, i: u64, elapsed: Option<Duration>) -> (r: Result<
        SaveInfo,
        Status,
    >)
        ensures
            final(self).max_size() == old(self).max_size(),
            match overdue::<SaveInfo>(timeout@, elapsed, i) {
                Some(d) => final(self)@ == old(self)@ && Action::Emit(r).amounts_to(d),
                None => final(self)@ == after_get(old(self)@) && get_answer(old(self)@, r),
            },
    {
        match Poller::check(timeout, elapsed, i) {
            Err(e) => Err(e),
            Ok(_) => self.pop(),
        }
    }

    /// Applies one command, with `now` as the time of acceptance.
    pub fn handle_at(&mut self, req: Req, now: Timestamp) -> (reply: Reply)
        ensures
            final(self).max_size() == old(self).max_size(),
            final(self)@ == applied(old(self)@, old(self).max_size(), req),
            answered(old(self)@, old(self).max_size(), req, now, reply),
    {
        match req {
            Req::PushBack(si) => Reply::PushBack(self.save_at(si, now)),
            Req::PopFront => Reply::PopFront(self.pop()),
        }
    }

    /// Applies one command.
    pub fn handle(&mut self, req: Req) -> (reply: Reply)
        ensures
            final(self).max_size() == old(self).max_size(),
            final(self)@ == applied(old(self)@, old(self).max_size(), req),
            exists|now: Timestamp| #[trigger]
                answered(old(self)@, old(self).max_size(), req, now, reply),
    {
        self.handle_at(req, now())
    }
}

/// Whether `si` is the entry made of the request `req`, and `after` and `r`
/// are the queue and the answer once `si` has been appended to `q`.
pub open spec fn saved_as(
    q: Seq<SaveInfo>,
    req: SaveRequest,
    si: SaveInfo,
    after: Seq<SaveInfo>,
    r: Result<SaveResponse, Status>,
) -> bool {
    &&& si.req().holds(req)
    &&& after == q.push(si)
    &&& r == Ok::<SaveResponse, Status>(SaveResponse { saved: Some(si.saved()) })
}

impl ReqBufferService for BufSvcSt {
    type LoadStream = Poller;

    /// A request that lacks a field is refused as an invalid argument and a
    /// queue whose size exceeds its maximum refuses as unavailable, both
    /// without a change. Any other request is appended at the tail, stamped
    /// with the time of saving, which is the answer.
    open spec fn save_spec(&self, req: SaveRequest, after: Self, r: Result<SaveResponse, Status>)
        -> bool {
        &&& after.max_size() == self.max_size()
        &&& match SaveReq::missing(req) {
            Some(text) => after@ == self@ && fails(r, Code::InvalidArgument, text),
            None => if admits(self@, self.max_size()) {
                exists|si: SaveInfo| #[trigger] saved_as(self@, req, si, after@, r)
            } else {
                after@ == self@ && fails(
                    r,
                    Code::Unavailable,
                    with_count("too many requests. size: "@, self@.len()),
                )
            },
        }
    }

    /// A request that lacks a field is refused as an invalid argument. Any
    /// other begins a poll under its retry policy.
    open spec fn load_spec(&self, req: LoadRequest, r: Result<Poller, Status>) -> bool {
        match LoadReq::missing(req) {
            Some(text) => r matches Err(e) && e.is(Code::InvalidArgument, text),
            None => r matches Ok(p) && p@ == (PollerView {
                retry_max: req.retry->0.retry_max,
                timeout: req.retry->0.policy().timeout,
                tried: 0,
            }),
        }
    }

    /// At its start a poll waits where its policy allows a try and closes
    /// where it allows none. At a tick it fails where the clock is broken or
    /// past the timeout; else it tries: the head of the queue, where there is
    /// one, is taken out and emitted, and an empty queue counts one try and
    /// has the poll wait again, or close after the last try.
    open spec fn load_next_spec(
        &self,
        stream: Poller,
        pulse: Pulse,
        after: Self,
        stream_after: Poller,
        action: Action<LoadResponse>,
    ) -> bool {
        &&& after.max_size() == self.max_size()
        &&& match pulse {
            Pulse::Start => {
                &&& after@ == self@
                &&& stream_after@ == stream@
                &&& action.amounts_to(decide::<LoadResponse>(stream@, Event::Start).1)
            },
            Pulse::Tick(elapsed) => match overdue::<LoadResponse>(
                stream@.timeout,
                elapsed,
                stream@.tried,
            ) {
                Some(d) => after@ == self@ && stream_after@ == stream@ && action.amounts_to(d),
                None => if self@.len() > 0 {
                    &&& after@ == self@.drop_first()
                    &&& stream_after@ == stream@
                    &&& action == Action::Emit(
                        Ok::<LoadResponse, Status>(load_response(self@[0])),
                    )
                } else {
                    &&& after@ == self@
                    &&& stream_after@ == missed::<LoadResponse>(stream@).0
                    &&& action.amounts_to(missed::<LoadResponse>(stream@).1)
                },
            },
        }
    }

    fn save(&mut self, req: SaveRequest) -> (r: Result<SaveResponse, Status>) {
        let checked: SaveReq = match SaveReq::try_from(req) {
            Ok(c) => c,
            Err(e) => {
                return Err(e);
            },
        };
        let saved: Timestamp = now();
        let si: SaveInfo = SaveInfo::new(checked, saved);
        match self.save_at(si, saved) {
            Ok(_) => {
                let r = Ok(SaveResponse { saved: Some(saved) });
                assert(saved_as(old(self)@, req, si, self@, r));
                r
            },
            Err(e) => Err(e),
        }
    }

    fn load(&self, req: LoadRequest) -> (r: Result<Poller, Status>) {
        match LoadReq::try_from(req) {
            Ok(checked) => Ok(Poller::new(checked.as_retry())),
            Err(e) => Err(e),
        }
    }

    fn load_next(&mut self, stream: &mut Poller, pulse: Pulse) -> (action: Action<LoadResponse>) {
        match pulse {
            Pulse::Start => stream.step(Event::Start),
            Pulse::Tick(elapsed) => {
                match stream.step::<LoadResponse>(Event::Tick(elapsed)) {
                    Action::Try => {
                        let r: Result<LoadResponse, Status> = match self.pop() {
                            Ok(si) => Ok(LoadResponse::from(si)),
                            Err(e) => Err(e),
                        };
                        stream.step(Event::Reply(r))
                    },
                    other => other,
                }
            },
        }
    }
}

/// An empty queue with the maximum `max_size`.
pub fn buf_svc_st_new(max_size: usize) -> (q: BufSvcSt)
    ensures
        q@ == Seq::<SaveInfo>::empty(),
        q.max_size() == max_size,
{
    BufSvcSt { items: VecDeque::new(), max_size }
}

/// An empty request queue with the maximum `max_buf_size`.
pub fn request_buffer_service_new(max_buf_size: usize) -> (q: BufSvcSt)
    ensures
        q@ == Seq::<SaveInfo>::empty(),
        q.max_size() == max_buf_size,
{
    buf_svc_st_new(max_buf_size)
}

/// The queue after the commands `reqs`, applied in order.
pub open spec fn after(q: Seq<SaveInfo>, max_size: usize, reqs: Seq<Req>) -> Seq<SaveInfo>
    decreases reqs.len(),
{
    if reqs.len() == 0 {
        q
    } else {
        applied(after(q, max_size, reqs.drop_last()), max_size, reqs.last())
    }
}

/// The entries that the commands `reqs` brought into the queue, in the order
/// in which they were admitted.
pub open spec fn admitted(q: Seq<SaveInfo>, max_size: usize, reqs: Seq<Req>) -> Seq<SaveInfo>
    decreases reqs.len(),
{
    if reqs.len() == 0 {
        Seq::empty()
    } else {
        let before = after(q, max_size, reqs.drop_last());
        let earlier = admitted(q, max_size, reqs.drop_last());
        match reqs.last() {
            Req::PushBack(si) => if admits(before, max_size) {
                earlier.push(si)
            } else {
                earlier
            },
            Req::PopFront => earlier,
        }
    }
}

/// The entries that the commands `reqs` took out of the queue, in the order
/// in which they were handed out.
pub open spec fn delivered(q: Seq<SaveInfo>, max_size: usize, reqs: Seq<Req>) -> Seq<SaveInfo>
    decreases reqs.len(),
{
    if reqs.len() == 0 {
        Seq::empty()
    } else {
        let before = after(q, max_size, reqs.drop_last());
        let earlier = delivered(q, max_size, reqs.drop_last());
        match reqs.last() {
            Req::PushBack(_) => earlier,
            Req::PopFront => if before.len() > 0 {
                earlier.push(before[0])
            } else {
                earlier
            },
        }
    }
}

/// First in, first out, nothing lost and nothing handed out twice: whatever
/// commands are applied, the entries that were there at first followed by
/// those admitted since are the entries handed out, in the order in which
/// they were handed out, followed by those still queued.
pub proof fn lemma_fifo(q: Seq<SaveInfo>, max_size: usize, reqs: Seq<Req>)
    ensures
        q + admitted(q, max_size, reqs) == delivered(q, max_size, reqs) + after(
            q,
            max_size,
            reqs,
        ),
    decreases reqs.len(),
{
    if reqs.len() == 0 {
        assert(q + Seq::<SaveInfo>::empty() =~= Seq::<SaveInfo>::empty() + q);
    } else {
        let head = reqs.drop_last();
        lemma_fifo(q, max_size, head);
        let before = after(q, max_size, head);
        let a = admitted(q, max_size, head);
        let d = delivered(q, max_size, head);
        assert(q + a == d + before);
        match reqs.last() {
            Req::PushBack(si) => {
                if admits(before, max_size) {
                    assert(q + a.push(si) =~= (q + a).push(si));
                    assert(d + before.push(si) =~= (d + before).push(si));
                }
            },
            Req::PopFront => {
                if before.len() > 0 {
                    assert(d.push(before[0]) + before.drop_first() =~= d + before);
                }
            },
        }
    }
}

/// The bound holds whatever commands are applied: a queue that holds no more
/// than one entry above its maximum never comes to hold more than that.
pub proof fn lemma_bounded(q: Seq<SaveInfo>, max_size: usize, reqs: Seq<Req>)
    requires
        q.len() <= max_size + 1,
    ensures
        after(q, max_size, reqs).len() <= max_size + 1,
    decreases reqs.len(),
{
    if reqs.len() > 0 {
        lemma_bounded(q, max_size, reqs.drop_last());
    }
}

/// A queue whose size exceeds its maximum refuses every entry as
/// unavailable and holds what it held.
pub proof fn lemma_full_queue_refuses(
    q: Seq<SaveInfo>,
    max_size: usize,
    si: SaveInfo,
    now: Timestamp,
    r: Result<Timestamp, Status>,
)
    requires
        !admits(q, max_size),
        save_answer(q, max_size, now, r),
    ensures
        r matches Err(e) && e.code == Code::Unavailable,
        after_save(q, max_size, si) == q,
{
}

/// The head of the queue is the entry that has waited longest: an entry
/// that is appended to a queue that holds others leaves only after them.
pub proof fn lemma_head_is_oldest(
    q: Seq<SaveInfo>,
    max_size: usize,
    si: SaveInfo,
    r: Result<SaveInfo, Status>,
)
    requires
        q.len() > 0,
        get_answer(after_save(q, max_size, si), r),
    ensures
        r == Ok::<SaveInfo, Status>(q[0]),
{
}

} // verus!
