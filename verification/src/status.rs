//! The outcome kinds that every failing operation is mapped to.

use crate::text::{hex, push_decimal, push_hex};
use crate::uuid::Uuid;
use vstd::prelude::*;
use vstd::string::*;

verus! {

/// The kind of a failure.
#[derive(Clone, Copy, Debug, PartialEq, Eq, Structural)]
pub enum Code {
    /// A required field is absent.
    InvalidArgument,
    /// The key is absent, or the queue is empty. The only kind a poll retries.
    NotFound,
    /// The key is already occupied.
    AlreadyExists,
    /// A poll ran past its timeout.
    DeadlineExceeded,
    /// The container is at its configured maximum.
    Unavailable,
    /// The capability is not provided.
    Unimplemented,
    /// A channel, clock or encoding failure.
    Internal,
}

/// A failure: its kind and a message for the caller.
#[derive(Clone, Debug, PartialEq, Eq)]
pub struct Status {
    pub code: Code,
    pub message: String,
}

/// The text `prefix` followed by the identifier `id` in hexadecimal.
pub open spec fn with_id(prefix: Seq<char>, id: u128) -> Seq<char> {
    prefix + hex(id as nat, 32)
}

/// The text `prefix` followed by the number `n` in decimal.
pub open spec fn with_count(prefix: Seq<char>, n: nat) -> Seq<char> {
    prefix + crate::text::decimal(n)
}

/// Whether `r` is a failure of the kind `code` with the text `message`.
pub open spec fn fails<T>(r: Result<T, Status>, code: Code, message: Seq<char>) -> bool {
    r matches Err(e) && e.is(code, message)
}

impl Status {
    /// Whether this failure has the kind `code` and the text `message`.
    pub open spec fn is(&self, code: Code, message: Seq<char>) -> bool {
        self.code == code && self.message@ == message
    }

    pub fn new(code: Code, message: String) -> (s: Self)
        ensures
            s.code == code,
            s.message == message,
    {
        Status { code, message }
    }

    pub fn code(&self) -> (c: Code)
        ensures
            c == self.code,
    {
        self.code
    }

    pub fn message(&self) -> (m: &str)
        ensures
            m@ == self.message@,
    {
        self.message.as_str()
    }

    pub fn invalid_argument(message: &str) -> (s: Self)
        ensures
            s.is(Code::InvalidArgument, message@),
    {
        Status { code: Code::InvalidArgument, message: String::from_str(message) }
    }

    pub fn not_found(message: &str) -> (s: Self)
        ensures
            s.is(Code::NotFound, message@),
    {
        Status { code: Code::NotFound, message: String::from_str(message) }
    }

    pub fn already_exists(message: &str) -> (s: Self)
        ensures
            s.is(Code::AlreadyExists, message@),
    {
        Status { code: Code::AlreadyExists, message: String::from_str(message) }
    }

    pub fn deadline_exceeded(message: &str) -> (s: Self)
        ensures
            s.is(Code::DeadlineExceeded, message@),
    {
        Status { code: Code::DeadlineExceeded, message: String::from_str(message) }
    }

    pub fn unavailable(message: &str) -> (s: Self)
        ensures
            s.is(Code::Unavailable, message@),
    {
        Status { code: Code::Unavailable, message: String::from_str(message) }
    }

    pub fn unimplemented(message: &str) -> (s: Self)
        ensures
            s.is(Code::Unimplemented, message@),
    {
        Status { code: Code::Unimplemented, message: String::from_str(message) }
    }

    /// A failure of the kind `code` whose text is `prefix` followed by the
    /// identifier `id`.
    pub fn about_id(code: Code, prefix: &str, id: Uuid) -> (s: Self)
        ensures
            s.is(code, with_id(prefix@, id@)),
    {
        let mut message = String::from_str(prefix);
        push_hex(&mut message, id.as_u128(), 32);
        Status { code, message }
    }

    /// A failure of the kind `code` whose text is `prefix` followed by the
    /// number `n`.
    pub fn about_count(code: Code, prefix: &str, n: u128) -> (s: Self)
        ensures
            s.is(code, with_count(prefix@, n as nat)),
    {
        let mut message = String::from_str(prefix);
        push_decimal(&mut message, n);
        Status { code, message }
    }

    /// A failure of the kind `code` whose text is `prefix` followed by the
    /// size `n`.
    pub fn about_size(code: Code, prefix: &str, n: usize) -> (s: Self)
        ensures
            s.is(code, with_count(prefix@, n as nat)),
    {
        Self::about_count(code, prefix, n as u128)
    }

    pub fn internal(message: &str) -> (s: Self)
        ensures
            s.is(Code::Internal, message@),
    {
        Status { code: Code::Internal, message: String::from_str(message) }
    }
}

} // verus!
