//! What an expiration service offers.

use crate::status::{fails, Code, Status};
use crate::uuid::Uuid;
use vstd::prelude::*;

verus! {

/// A service that keeps track of keys and tells which of them are expired.
pub trait ExpireService: Sized {
    /// Whether `r` may answer a request for the expired keys.
    spec fn expired_spec(&self, r: Result<Vec<Uuid>, Status>) -> bool;

    /// Whether registering `key` may take this service to `after` with the
    /// answer `r`.
    spec fn register_spec(&self, key: Uuid, after: Self, r: Result<(), Status>) -> bool;

    /// The keys that are expired, in the order of a forward scan.
    fn expired_keys(&self) -> (r: Result<Vec<Uuid>, Status>)
        ensures
            self.expired_spec(r),
    ;

    /// Registers `key`.
    fn register_key(&mut self, key: Uuid) -> (r: Result<(), Status>)
        ensures
            old(self).register_spec(key, *final(self), r),
    ;

    /// Forgets a key that was registered. A service that does not offer this
    /// answers that it is not implemented.
    fn forget_key(&mut self, _key: Uuid) -> (r: Result<(), Status>)
        default_ensures
            fails(r, Code::Unimplemented, "not implemented"@),
    {
        Err(Status::unimplemented("not implemented"))
    }
}

} // verus!
