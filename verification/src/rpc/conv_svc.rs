//! Messages of the conversion service.

use crate::rpc::common::Uuid;
use crate::time::Timestamp;
use vstd::prelude::*;

verus! {

/// A request to convert `seed`.
#[derive(Clone, Debug, PartialEq, Eq)]
pub struct ConvertRequest {
    pub request_id: Option<Uuid>,
    pub seed: Vec<u8>,
}

/// The result of a conversion and the time it was made.
#[derive(Clone, Debug, PartialEq, Eq)]
pub struct ConvertResponse {
    pub converted: Option<Timestamp>,
    pub generated: Vec<u8>,
}

} // verus!
