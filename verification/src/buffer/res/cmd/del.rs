//! The checked form of a request to delete a stored response.

use crate::rpc::res_buf::DelRequest;
use crate::status::{with_id, Code, Status};
use crate::uuid::{join, Uuid};
use vstd::prelude::*;

verus! {

/// A delete request with every required field present.
#[derive(Clone, Copy, Debug, PartialEq, Eq, Structural)]
pub struct DelReq {
    request_id: Uuid,
    reply_id: Uuid,
}

impl DelReq {
    pub closed spec fn request_id(&self) -> Uuid {
        self.request_id
    }

    pub closed spec fn reply_id(&self) -> Uuid {
        self.reply_id
    }

    pub fn as_request_id(&self) -> (id: Uuid)
        ensures
            id == self.request_id(),
    {
        self.request_id
    }

    pub fn as_reply_id(&self) -> (id: Uuid)
        ensures
            id == self.reply_id(),
    {
        self.reply_id
    }

    /// Checks that `g` names the request and the reply. The first absent
    /// field, in that order, is reported as an invalid argument.
    pub fn try_from(g: DelRequest) -> (r: Result<Self, Status>)
        ensures
            match (g.request_id, g.reply_id) {
                (None, _) => r matches Err(e) && e.is(
                    Code::InvalidArgument,
                    "request id missing"@,
                ),
                (Some(q), None) => r matches Err(e) && e.is(
                    Code::InvalidArgument,
                    with_id("reply id missing. request id: "@, join(q.hi, q.lo)),
                ),
                (Some(q), Some(p)) => r matches Ok(d) && d.request_id()@ == join(q.hi, q.lo)
                    && d.reply_id()@ == join(p.hi, p.lo),
            },
    {
        let request_id: Uuid = match g.request_id {
            Some(q) => Uuid::from(q),
            None => {
                return Err(Status::invalid_argument("request id missing"));
            },
        };
        let reply_id: Uuid = match g.reply_id {
            Some(p) => Uuid::from(p),
            None => {
                return Err(
                    Status::about_id(
                        Code::InvalidArgument,
                        "reply id missing. request id: ",
                        request_id,
                    ),
                );
            },
        };
        Ok(Self { request_id, reply_id })
    }
}

} // verus!
