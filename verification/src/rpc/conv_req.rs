//! Messages of the service that hands pending requests to an indirect
//! consumer.

use crate::rpc::common::Uuid;
use crate::rpc::conv_svc::ConvertRequest;
use vstd::prelude::*;

verus! {

/// An indirect consumer asks for a pending request.
#[derive(Clone, Debug, PartialEq, Eq)]
pub struct GetRequest {
    pub request_id: Option<Uuid>,
}

/// A pending request and the reply identifier to store its result under.
#[derive(Clone, Debug, PartialEq, Eq)]
pub struct GetResponse {
    pub req: Option<ConvertRequest>,
    pub reply_id: Option<Uuid>,
}

} // verus!
