//! The checked form of an indirect consumer's request for a pending request.

use crate::rpc::conv_req::GetRequest;
use crate::status::{Code, Status};
use crate::uuid::{join, Uuid};
use vstd::prelude::*;

verus! {

/// A request for a pending request, with its identifier present.
#[derive(Clone, Copy, Debug, PartialEq, Eq, Structural)]
pub struct GetReq {
    request_id: Uuid,
}

impl GetReq {
    pub closed spec fn request_id(&self) -> Uuid {
        self.request_id
    }

    pub fn as_request_id(&self) -> (id: Uuid)
        ensures
            id == self.request_id(),
    {
        self.request_id
    }

    /// Checks that `g` names the request; an absent identifier is reported as
    /// an invalid argument.
    pub fn try_from(g: GetRequest) -> (r: Result<Self, Status>)
        ensures
            match g.request_id {
                None => r matches Err(e) && e.is(Code::InvalidArgument, "request id missing"@),
                Some(q) => r matches Ok(d) && d.request_id()@ == join(q.hi, q.lo),
            },
    {
        match g.request_id {
            Some(q) => Ok(Self { request_id: Uuid::from(q) }),
            None => Err(Status::invalid_argument("request id missing")),
        }
    }
}

} // verus!
