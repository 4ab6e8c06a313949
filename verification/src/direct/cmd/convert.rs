//! The checked form of a conversion request.

use crate::rpc::conv_svc::ConvertRequest;
use crate::status::{Code, Status};
use crate::uuid::{join, lower, upper, Uuid};
use vstd::prelude::*;

verus! {

/// A conversion request with its identifier present.
#[derive(Clone, Debug, PartialEq, Eq)]
pub struct ConvertReq {
    request_id: Uuid,
    seed: Vec<u8>,
}

impl ConvertReq {
    pub closed spec fn request_id(&self) -> Uuid {
        self.request_id
    }

    pub closed spec fn seed(&self) -> Vec<u8> {
        self.seed
    }

    pub fn as_request(&self) -> (id: Uuid)
        ensures
            id == self.request_id(),
    {
        self.request_id
    }

    pub fn into_seed(self) -> (seed: Vec<u8>)
        ensures
            seed == self.seed(),
    {
        self.seed
    }

    /// Checks that `g` names the request; an absent identifier is reported as
    /// an invalid argument. The seed is taken over as it is.
    pub fn try_from(g: ConvertRequest) -> (r: Result<Self, Status>)
        ensures
            match g.request_id {
                None => r matches Err(e) && e.is(Code::InvalidArgument, "request id missing"@),
                Some(q) => r matches Ok(d) && d.request_id()@ == join(q.hi, q.lo) && d.seed()
                    == g.seed,
            },
    {
        match g.request_id {
            Some(q) => Ok(Self { request_id: Uuid::from(q), seed: g.seed }),
            None => Err(Status::invalid_argument("request id missing")),
        }
    }
}

impl ConvertRequest {
    /// The wire form of `d`.
    pub fn from(d: ConvertReq) -> (g: Self)
        ensures
            g.request_id matches Some(q) && q.hi == upper(d.request_id()@) && q.lo == lower(
                d.request_id()@,
            ),
            g.seed == d.seed(),
    {
        Self { request_id: Some(crate::rpc::common::Uuid::from(d.request_id)), seed: d.seed }
    }
}

} // verus!
