//! 128-bit correlation identifiers.

use crate::status::Status;
use crate::text::{hex, push_hex};
use vstd::prelude::*;

verus! {

/// Two to the sixty-fourth.
pub const HALF: u128 = 0x1_0000_0000_0000_0000;

/// The value whose upper half is `hi` and whose lower half is `lo`.
pub open spec fn join(hi: u64, lo: u64) -> u128 {
    (hi as int * HALF as int + lo as int) as u128
}

/// The upper half of `raw`.
pub open spec fn upper(raw: u128) -> u64 {
    (raw / HALF) as u64
}

/// The lower half of `raw`.
pub open spec fn lower(raw: u128) -> u64 {
    (raw % HALF) as u64
}

/// Whether `raw` carries the version and variant marks of a random
/// (version 4) identifier.
pub open spec fn is_v4(raw: u128) -> bool {
    raw & 0x0000_0000_0000_f000_c000_0000_0000_0000u128
        == 0x0000_0000_0000_4000_8000_0000_0000_0000u128
}

/// A 128-bit correlation identifier. Identifiers are ordered by their value.
#[derive(Clone, Copy, Debug, PartialEq, Eq, Structural)]
pub struct Uuid {
    raw: u128,
}

impl View for Uuid {
    type V = u128;

    /// The identifier's value.
    closed spec fn view(&self) -> u128 {
        self.raw
    }
}

/// Anything that carries an identifier as two 64-bit halves.
pub trait UuidLike {
    /// The upper half.
    fn hi(&self) -> u64;

    /// The lower half.
    fn lo(&self) -> u64;
}

/// Whether `raw` is the value of the identifier that `u` carries: the value
/// whose halves are what `hi` and `lo` give for `u`.
pub open spec fn carried<U: UuidLike>(u: &U, raw: u128) -> bool {
    exists|hi: u64, lo: u64|
        call_ensures(U::hi, (u,), hi) && call_ensures(U::lo, (u,), lo) && raw == join(hi, lo)
}

impl Uuid {
    /// The identifier with the value `raw`.
    pub fn from_u128(raw: u128) -> (u: Self)
        ensures
            u@ == raw,
    {
        Self { raw }
    }

    /// The identifier's value.
    pub fn as_u128(&self) -> (raw: u128)
        ensures
            raw == self@,
    {
        self.raw
    }

    /// A fresh random identifier.
    pub fn new_v4() -> (u: Self)
        ensures
            is_v4(u@),
    {
        Self { raw: random_v4() }
    }

    /// The identifier whose upper half is `hi` and whose lower half is `lo`.
    pub fn new(hi: u64, lo: u64) -> (u: Self)
        ensures
            u@ == join(hi, lo),
    {
        let h: u128 = hi as u128;
        let l: u128 = lo as u128;
        assert((h << 64) | l == h * 0x1_0000_0000_0000_0000u128 + l) by (bit_vector)
            requires
                h <= 0xffff_ffff_ffff_ffffu128,
                l <= 0xffff_ffff_ffff_ffffu128,
        ;
        let raw: u128 = (h << 64) | l;
        Self { raw }
    }

    /// The identifier's upper and lower halves.
    pub fn split(&self) -> (halves: (u64, u64))
        ensures
            halves.0 == upper(self@),
            halves.1 == lower(self@),
    {
        let raw: u128 = self.raw;
        assert(raw >> 64 == raw / 0x1_0000_0000_0000_0000u128) by (bit_vector);
        assert(raw & 0xffff_ffff_ffff_ffffu128 == raw % 0x1_0000_0000_0000_0000u128)
            by (bit_vector);
        let hi: u128 = raw >> 64;
        let lo: u128 = raw & 0xffff_ffff_ffff_ffff;
        (hi as u64, lo as u64)
    }

    /// The identifier as thirty-two lower-case hexadecimal digits.
    pub fn to_string(&self) -> (s: String)
        ensures
            s@ == hex(self@ as nat, 32),
    {
        let mut s = String::new();
        push_hex(&mut s, self.raw, 32);
        assert(s@ =~= hex(self@ as nat, 32));
        s
    }

    /// The identifier that `u` carries.
    pub fn from<U: UuidLike>(u: U) -> (id: Self)
        ensures
            carried(&u, id@),
    {
        let hi: u64 = u.hi();
        let lo: u64 = u.lo();
        Self::new(hi, lo)
    }

    /// The identifier that `ou` carries, or an invalid-argument failure where
    /// there is none.
    pub fn try_from<U: UuidLike>(ou: Option<&U>) -> (r: Result<Self, Status>)
        ensures
            match ou {
                Some(u) => r matches Ok(id) && carried(u, id@),
                None => r matches Err(e) && e.is(
                    crate::status::Code::InvalidArgument,
                    "uuid missing"@,
                ),
            },
    {
        match ou {
            None => Err(Status::invalid_argument("uuid missing")),
            Some(u) => Ok(Self::new(u.hi(), u.lo())),
        }
    }
}

/// Putting two halves together and taking them apart again gives them back.
pub proof fn lemma_split_join(hi: u64, lo: u64)
    ensures
        upper(join(hi, lo)) == hi,
        lower(join(hi, lo)) == lo,
{
}

/// Taking a value apart and putting its halves together again gives it back.
pub proof fn lemma_join_split(raw: u128)
    ensures
        join(upper(raw), lower(raw)) == raw,
{
}

/// Draws a random identifier with `uuid::Uuid::new_v4` and reads its value
/// with `as_u128`. The value is random but for the version and variant marks,
/// which that function always sets.
#[verifier::external_body]
fn random_v4() -> (raw: u128)
    ensures
        is_v4(raw),
{
    uuid::Uuid::new_v4().as_u128()
}

} // verus!
