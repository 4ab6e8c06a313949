//! The checked form of a request to store a response, and the stored entry
//! made from it.

use crate::rpc::conv_svc::ConvertResponse;
use crate::rpc::res_buf::{GetResponse, SetRequest};
use crate::status::{with_id, Code, Status};
use crate::time::Timestamp;
use crate::uuid::{join, Uuid};
use vstd::prelude::*;

verus! {

/// A store request with every required field present.
#[derive(Clone, Debug, PartialEq, Eq)]
pub struct SetReq {
    request_id: Uuid,
    reply_id: Uuid,
    response: ConvertResponse,
    received: Timestamp,
    saved: Timestamp,
    converted: Timestamp,
}

impl SetReq {
    pub closed spec fn request_id(&self) -> Uuid {
        self.request_id
    }

    pub closed spec fn reply_id(&self) -> Uuid {
        self.reply_id
    }

    pub closed spec fn response(&self) -> ConvertResponse {
        self.response
    }

    pub closed spec fn received(&self) -> Timestamp {
        self.received
    }

    pub closed spec fn saved(&self) -> Timestamp {
        self.saved
    }

    pub closed spec fn converted(&self) -> Timestamp {
        self.converted
    }

    /// The text of the failure that `g` is refused with, where it lacks a
    /// field: the first absent one of request id, reply id, response and the
    /// times of receipt, saving and conversion.
    pub open spec fn missing(g: SetRequest) -> Option<Seq<char>> {
        if g.request_id is None {
            Some("request id missing"@)
        } else {
            let id = join(g.request_id->0.hi, g.request_id->0.lo);
            if g.reply_id is None {
                Some(with_id("reply id missing. request id: "@, id))
            } else if g.res is None {
                Some(with_id("response missing. request id: "@, id))
            } else if g.received is None {
                Some(with_id("received missing. request id: "@, id))
            } else if g.saved is None {
                Some(with_id("saved missing. request id: "@, id))
            } else if g.converted is None {
                Some(with_id("converted missing. request id: "@, id))
            } else {
                None
            }
        }
    }

    /// Whether this checked request holds exactly what `g` holds.
    pub open spec fn holds(&self, g: SetRequest) -> bool {
        &&& g.request_id matches Some(q) && self.request_id()@ == join(q.hi, q.lo)
        &&& g.reply_id matches Some(p) && self.reply_id()@ == join(p.hi, p.lo)
        &&& g.res == Some(self.response())
        &&& g.received == Some(self.received())
        &&& g.saved == Some(self.saved())
        &&& g.converted == Some(self.converted())
    }

    /// The entry that the store keeps for this request when it is written at
    /// the time `set`.
    pub open spec fn stored(&self, set: Timestamp) -> GetResponse {
        GetResponse {
            res: Some(self.response()),
            received: Some(self.received()),
            saved: Some(self.saved()),
            converted: Some(self.converted()),
            set: Some(set),
        }
    }

    pub fn as_request_id(&self) -> (id: Uuid)
        ensures
            id == self.request_id(),
    {
        self.request_id
    }

    pub fn as_reply_id(&self) -> (id: Uuid)
        ensures
            id == self.reply_id(),
    {
        self.reply_id
    }

    pub fn as_received(&self) -> (t: &Timestamp)
        ensures
            *t == self.received(),
    {
        &self.received
    }

    pub fn as_saved(&self) -> (t: &Timestamp)
        ensures
            *t == self.saved(),
    {
        &self.saved
    }

    pub fn as_converted(&self) -> (t: &Timestamp)
        ensures
            *t == self.converted(),
    {
        &self.converted
    }

    pub fn into_response(self) -> (response: ConvertResponse)
        ensures
            response == self.response(),
    {
        self.response
    }

    /// Checks that `g` names the request and the reply and carries the
    /// response and its three times. The first absent field, in that order,
    /// is reported as an invalid argument.
    pub fn try_from(g: SetRequest) -> (r: Result<Self, Status>)
        ensures
            match Self::missing(g) {
                Some(text) => r matches Err(e) && e.is(Code::InvalidArgument, text),
                None => r matches Ok(d) && d.holds(g),
            },
    {
        let request_id: Uuid = match g.request_id {
            Some(q) => Uuid::from(q),
            None => {
                return Err(Status::invalid_argument("request id missing"));
            },
        };
        let reply_id: Uuid = match g.reply_id {
            Some(p) => Uuid::from(p),
            None => {
                return Err(
                    Status::about_id(
                        Code::InvalidArgument,
                        "reply id missing. request id: ",
                        request_id,
                    ),
                );
            },
        };
        let response: ConvertResponse = match g.res {
            Some(c) => c,
            None => {
                return Err(
                    Status::about_id(
                        Code::InvalidArgument,
                        "response missing. request id: ",
                        request_id,
                    ),
                );
            },
        };
        let received: Timestamp = match g.received {
            Some(t) => t,
            None => {
                return Err(
                    Status::about_id(
                        Code::InvalidArgument,
                        "received missing. request id: ",
                        request_id,
                    ),
                );
            },
        };
        let saved: Timestamp = match g.saved {
            Some(t) => t,
            None => {
                return Err(
                    Status::about_id(
                        Code::InvalidArgument,
                        "saved missing. request id: ",
                        request_id,
                    ),
                );
            },
        };
        let converted: Timestamp = match g.converted {
            Some(t) => t,
            None => {
                return Err(
                    Status::about_id(
                        Code::InvalidArgument,
                        "converted missing. request id: ",
                        request_id,
                    ),
                );
            },
        };
        Ok(Self { request_id, reply_id, response, received, saved, converted })
    }
}

impl GetResponse {
    /// The entry that the store keeps for `d` when it is written at the time
    /// `set`.
    pub fn from(d: SetReq, set: Timestamp) -> (g: Self)
        ensures
            g == d.stored(set),
    {
        Self {
            res: Some(d.response),
            received: Some(d.received),
            saved: Some(d.saved),
            converted: Some(d.converted),
            set: Some(set),
        }
    }
}

} // verus!
