//! The checked form of a request to queue a conversion request, and the
//! queue's entry made from it.

use crate::rpc::conv_svc::ConvertRequest;
use crate::rpc::req_buf::SaveRequest;
use crate::status::{with_id, Code, Status};
use crate::time::Timestamp;
use crate::uuid::{join, Uuid};
use vstd::prelude::*;

verus! {

/// A save request with every required field present.
#[derive(Clone, Debug, PartialEq, Eq)]
pub struct SaveReq {
    request_id: Uuid,
    reply_id: Uuid,
    request: ConvertRequest,
    received: Timestamp,
}

impl SaveReq {
    pub closed spec fn request_id(&self) -> Uuid {
        self.request_id
    }

    pub closed spec fn reply_id(&self) -> Uuid {
        self.reply_id
    }

    pub closed spec fn request(&self) -> ConvertRequest {
        self.request
    }

    pub closed spec fn received(&self) -> Timestamp {
        self.received
    }

    /// The text of the failure that `g` is refused with, where it lacks a
    /// field: the first absent one of request id, reply id, request and time
    /// of receipt.
    pub open spec fn missing(g: SaveRequest) -> Option<Seq<char>> {
        match (g.request_id, g.reply_id, g.req, g.received) {
            (None, _, _, _) => Some("request id missing"@),
            (Some(q), None, _, _) => Some(
                with_id("reply id missing. request id: "@, join(q.hi, q.lo)),
            ),
            (Some(q), Some(_), None, _) => Some(
                with_id("request missing. request id: "@, join(q.hi, q.lo)),
            ),
            (Some(q), Some(_), Some(_), None) => Some(
                with_id("received time missing. request id: "@, join(q.hi, q.lo)),
            ),
            (Some(_), Some(_), Some(_), Some(_)) => None,
        }
    }

    /// Whether this checked request holds exactly what `g` holds.
    pub open spec fn holds(&self, g: SaveRequest) -> bool {
        &&& g.request_id matches Some(q) && self.request_id()@ == join(q.hi, q.lo)
        &&& g.reply_id matches Some(p) && self.reply_id()@ == join(p.hi, p.lo)
        &&& g.req == Some(self.request())
        &&& g.received == Some(self.received())
    }

    pub fn as_request_id(&self) -> (id: Uuid)
        ensures
            id == self.request_id(),
    {
        self.request_id
    }

    pub fn as_reply_id(&self) -> (id: Uuid)
        ensures
            id == self.reply_id(),
    {
        self.reply_id
    }

    pub fn as_received(&self) -> (t: &Timestamp)
        ensures
            *t == self.received(),
    {
        &self.received
    }

    pub fn into_request(self) -> (request: ConvertRequest)
        ensures
            request == self.request(),
    {
        self.request
    }

    /// Checks that `g` names the request and the reply and carries a
    /// conversion request and its time of receipt. The first absent field,
    /// in that order, is reported as an invalid argument.
    pub fn try_from(g: SaveRequest) -> (r: Result<Self, Status>)
        ensures
            match Self::missing(g) {
                Some(text) => r matches Err(e) && e.is(Code::InvalidArgument, text),
                None => r matches Ok(d) && d.holds(g),
            },
    {
        let request_id: Uuid = match g.request_id {
            Some(q) => Uuid::from(q),
            None => {
                return Err(Status::invalid_argument("request id missing"));
            },
        };
        let reply_id: Uuid = match g.reply_id {
            Some(p) => Uuid::from(p),
            None => {
                return Err(
                    Status::about_id(
                        Code::InvalidArgument,
                        "reply id missing. request id: ",
                        request_id,
                    ),
                );
            },
        };
        let request: ConvertRequest = match g.req {
            Some(c) => c,
            None => {
                return Err(
                    Status::about_id(
                        Code::InvalidArgument,
                        "request missing. request id: ",
                        request_id,
                    ),
                );
            },
        };
        let received: Timestamp = match g.received {
            Some(t) => t,
            None => {
                return Err(
                    Status::about_id(
                        Code::InvalidArgument,
                        "received time missing. request id: ",
                        request_id,
                    ),
                );
            },
        };
        Ok(Self { request_id, reply_id, request, received })
    }
}

/// An entry of the request queue: a checked save request and the time it was
/// saved.
#[derive(Clone, Debug, PartialEq, Eq)]
pub struct SaveInfo {
    req: SaveReq,
    saved: Timestamp,
}

impl SaveInfo {
    pub closed spec fn req(&self) -> SaveReq {
        self.req
    }

    pub closed spec fn saved(&self) -> Timestamp {
        self.saved
    }

    pub fn new(req: SaveReq, saved: Timestamp) -> (si: Self)
        ensures
            si.req() == req,
            si.saved() == saved,
    {
        Self { req, saved }
    }

    pub fn as_saved(&self) -> (t: Timestamp)
        ensures
            t == self.saved(),
    {
        self.saved
    }

    pub fn into_req(self) -> (req: SaveReq)
        ensures
            req == self.req(),
    {
        self.req
    }
}

} // verus!
