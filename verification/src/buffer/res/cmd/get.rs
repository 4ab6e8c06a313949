//! The checked form of a request to fetch a stored response.

use crate::retry::Retry;
use crate::rpc::res_buf::GetRequest;
use crate::status::{with_id, Code, Status};
use crate::uuid::{join, Uuid};
use vstd::prelude::*;

verus! {

/// A fetch request with every required field present.
#[derive(Clone, Copy, Debug, PartialEq, Eq, Structural)]
pub struct GetReq {
    request_id: Uuid,
    reply_id: Uuid,
    retry: Retry,
}

impl GetReq {
    pub closed spec fn request_id(&self) -> Uuid {
        self.request_id
    }

    pub closed spec fn reply_id(&self) -> Uuid {
        self.reply_id
    }

    pub closed spec fn retry(&self) -> Retry {
        self.retry
    }

    /// The text of the failure that `g` is refused with, where it lacks a
    /// field: the first absent one of request id, reply id and retry policy.
    pub open spec fn missing(g: GetRequest) -> Option<Seq<char>> {
        match (g.request_id, g.reply_id, g.retry) {
            (None, _, _) => Some("request id missing"@),
            (Some(q), None, _) => Some(
                with_id("reply id missing. request id: "@, join(q.hi, q.lo)),
            ),
            (Some(q), Some(_), None) => Some(
                with_id("retry missing. request id: "@, join(q.hi, q.lo)),
            ),
            (Some(_), Some(_), Some(_)) => None,
        }
    }

    pub fn as_request_id(&self) -> (id: Uuid)
        ensures
            id == self.request_id(),
    {
        self.request_id
    }

    pub fn as_reply_id(&self) -> (id: Uuid)
        ensures
            id == self.reply_id(),
    {
        self.reply_id
    }

    pub fn as_retry(&self) -> (retry: &Retry)
        ensures
            *retry == self.retry(),
    {
        &self.retry
    }

    /// Checks that `g` names the request, the reply and a retry policy. The
    /// first absent field, in that order, is reported as an invalid argument.
    pub fn try_from(g: GetRequest) -> (r: Result<Self, Status>)
        ensures
            match Self::missing(g) {
                Some(text) => r matches Err(e) && e.is(Code::InvalidArgument, text),
                None => r matches Ok(d) && d.request_id()@ == join(
                    g.request_id->0.hi,
                    g.request_id->0.lo,
                ) && d.reply_id()@ == join(g.reply_id->0.hi, g.reply_id->0.lo) && d.retry()@
                    == g.retry->0.policy(),
            },
    {
        let request_id: Uuid = match g.request_id {
            Some(q) => Uuid::from(q),
            None => {
                return Err(Status::invalid_argument("request id missing"));
            },
        };
        let reply_id: Uuid = match g.reply_id {
            Some(p) => Uuid::from(p),
            None => {
                return Err(
                    Status::about_id(
                        Code::InvalidArgument,
                        "reply id missing. request id: ",
                        request_id,
                    ),
                );
            },
        };
        let retry: Retry = match g.retry {
            Some(w) => Retry::from(&w),
            None => {
                return Err(
                    Status::about_id(
                        Code::InvalidArgument,
                        "retry missing. request id: ",
                        request_id,
                    ),
                );
            },
        };
        Ok(Self { request_id, reply_id, retry })
    }
}

} // verus!
