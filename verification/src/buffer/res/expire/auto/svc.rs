//! The decorator that registers the key of every response it stores with an
//! expiration service.

use crate::buffer::res::expire::svc::ExpireService;
use crate::poll::{Action, Pulse};
use crate::rpc::res_buf::{
    DelRequest, DelResponse, GetRequest, GetResponse, LenRequest, LenResponse, ResBufferService,
    SetRequest, SetResponse,
};
use crate::status::{fails, Code, Status};
use crate::uuid::{join, Uuid};
use vstd::prelude::*;

verus! {

/// A response buffer service `buf` whose writes are first registered with
/// the expiration service `expire`.
pub struct AutoExpireSvc<B, E> {
    pub buf: B,
    pub expire: E,
}

/// Whether a write that first registers `id` may take `expire` and `buf` to
/// `expire_after` and `buf_after` with the answer `r`, where the
/// registration answers `reg`: a refused registration is the answer and
/// nothing is written; after an accepted one the answer is the buffer's.
pub open spec fn registered_set<B: ResBufferService, E: ExpireService>(
    expire: E,
    buf: B,
    req: SetRequest,
    id: Uuid,
    reg: Result<(), Status>,
    expire_after: E,
    buf_after: B,
    r: Result<SetResponse, Status>,
) -> bool {
    &&& req.reply_id matches Some(p) && id@ == join(p.hi, p.lo)
    &&& expire.register_spec(id, expire_after, reg)
    &&& match reg {
        Err(e) => buf_after == buf && r == Err::<SetResponse, Status>(e),
        Ok(_) => buf.set_spec(req, buf_after, r),
    }
}

impl<B, E> AutoExpireSvc<B, E> {
    /// The decorator of `buf` that registers with `expire`.
    pub fn new(buf: B, expire: E) -> (s: Self)
        ensures
            s.buf == buf,
            s.expire == expire,
    {
        AutoExpireSvc { buf, expire }
    }
}

impl<B: ResBufferService, E: ExpireService> ResBufferService for AutoExpireSvc<B, E> {
    type GetStream = B::GetStream;

    /// The answer is the buffer's.
    open spec fn get_spec(&self, req: GetRequest, r: Result<B::GetStream, Status>) -> bool {
        self.buf.get_spec(req, r)
    }

    /// The pulse goes to the buffer; the expiration service is not touched.
    open spec fn get_next_spec(
        &self,
        stream: B::GetStream,
        pulse: Pulse,
        after: Self,
        stream_after: B::GetStream,
        action: Action<GetResponse>,
    ) -> bool {
        &&& after.expire == self.expire
        &&& self.buf.get_next_spec(stream, pulse, after.buf, stream_after, action)
    }

    /// A request without a reply identifier is refused as an invalid
    /// argument and nothing changes. Any other request first has its reply
    /// identifier registered; where that is refused the refusal is the answer
    /// and nothing is written, else the request goes to the buffer.
    open spec fn set_spec(&self, req: SetRequest, after: Self, r: Result<SetResponse, Status>)
        -> bool {
        match req.reply_id {
            None => after == *self && fails(r, Code::InvalidArgument, "reply id missing"@),
            Some(_) => exists|id: Uuid, reg: Result<(), Status>| #[trigger]
                registered_set(self.expire, self.buf, req, id, reg, after.expire, after.buf, r),
        }
    }

    /// The request goes to the buffer; the expiration service is not
    /// touched.
    open spec fn del_spec(&self, req: DelRequest, after: Self, r: Result<DelResponse, Status>)
        -> bool {
        &&& after.expire == self.expire
        &&& self.buf.del_spec(req, after.buf, r)
    }

    /// The answer is the buffer's.
    open spec fn len_spec(&self, req: LenRequest, r: Result<LenResponse, Status>) -> bool {
        self.buf.len_spec(req, r)
    }

    fn get(&self, req: GetRequest) -> (r: Result<B::GetStream, Status>) {
        self.buf.get(req)
    }

    fn get_next(&mut self, stream: &mut B::GetStream, pulse: Pulse) -> (action: Action<
        GetResponse,
    >) {
        self.buf.get_next(stream, pulse)
    }

    fn set(&mut self, req: SetRequest) -> (r: Result<SetResponse, Status>) {
        let id: Uuid = match req.reply_id {
            Some(p) => Uuid::from(p),
            None => {
                return Err(Status::invalid_argument("reply id missing"));
            },
        };
        let reg: Result<(), Status> = self.expire.register_key(id);
        let ghost answer = reg;
        let r = match reg {
            Err(e) => Err(e),
            Ok(_) => self.buf.set(req),
        };
        assert(registered_set(
            old(self).expire,
            old(self).buf,
            req,
            id,
            answer,
            self.expire,
            self.buf,
            r,
        ));
        r
    }

    fn del(&mut self, req: DelRequest) -> (r: Result<DelResponse, Status>) {
        self.buf.del(req)
    }

    fn len(&self, req: LenRequest) -> (r: Result<LenResponse, Status>) {
        self.buf.len(req)
    }
}

/// Over a response store and an expiration tracker, every response that is
/// written has its key registered: after an accepted write the key is both
/// registered and stored.
pub proof fn lemma_written_key_is_registered(
    svc: AutoExpireSvc<
        crate::buffer::res::btree::svc::BufSvcSt,
        crate::buffer::res::expire::count::svc::Svc,
    >,
    req: SetRequest,
    after: AutoExpireSvc<
        crate::buffer::res::btree::svc::BufSvcSt,
        crate::buffer::res::expire::count::svc::Svc,
    >,
    r: Result<SetResponse, Status>,
)
    requires
        svc.set_spec(req, after, r),
        r is Ok,
    ensures
        req.reply_id is Some,
        !svc.expire@.contains_key(crate::buffer::res::btree::svc::set_key(req)),
        after.expire@.contains_key(crate::buffer::res::btree::svc::set_key(req)),
        after.expire@[crate::buffer::res::btree::svc::set_key(req)] == 0,
        after.buf@.contains_key(crate::buffer::res::btree::svc::set_key(req)),
{
    let (id, reg) = choose|id: Uuid, reg: Result<(), Status>| #[trigger]
        registered_set(svc.expire, svc.buf, req, id, reg, after.expire, after.buf, r);
    let now = choose|now: crate::time::Timestamp| #[trigger]
        crate::buffer::res::btree::svc::set_served(
            svc.buf@,
            svc.buf.max_size(),
            req,
            now,
            after.buf@,
            r,
        );
}

/// Over a response store and an expiration tracker, a write for a key that
/// is already registered is refused as already existing, whether or not a
/// response is still stored under the key, and the store is left as it was.
pub proof fn lemma_registered_key_is_refused(
    svc: AutoExpireSvc<
        crate::buffer::res::btree::svc::BufSvcSt,
        crate::buffer::res::expire::count::svc::Svc,
    >,
    req: SetRequest,
    after: AutoExpireSvc<
        crate::buffer::res::btree::svc::BufSvcSt,
        crate::buffer::res::expire::count::svc::Svc,
    >,
    r: Result<SetResponse, Status>,
)
    requires
        req.reply_id is Some,
        svc.expire@.contains_key(crate::buffer::res::btree::svc::set_key(req)),
        svc.set_spec(req, after, r),
    ensures
        r matches Err(e) && e.code == Code::AlreadyExists,
        after.buf == svc.buf,
        after.expire@ == svc.expire@,
{
    let (id, reg) = choose|id: Uuid, reg: Result<(), Status>| #[trigger]
        registered_set(svc.expire, svc.buf, req, id, reg, after.expire, after.buf, r);
}

} // verus!
