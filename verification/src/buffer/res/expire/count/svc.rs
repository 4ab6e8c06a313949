//! The expiration tracker: a usage counter for every registered key and an
//! ordered, resumable scan for the keys whose counter exceeds a threshold.

use crate::buffer::res::expire::svc::ExpireService;
use crate::poll::Poller;
use crate::status::{fails, with_id, Code, Status};
use crate::uuid::Uuid;
use std::collections::BTreeMap;
use vstd::prelude::*;
use vstd::std_specs::btree::increasing_seq;
use vstd::std_specs::cmp::OrdSpec;
use vstd::std_specs::iter::IteratorSpec;

verus! {

broadcast use vstd::laws_cmp::group_laws_cmp;

/// The registered keys and their usage counters.
pub struct Container {
    m: BTreeMap<u128, u64>,
}

/// Whether a key that was used `cnt` times is expired under the threshold
/// `max_cnt`.
pub open spec fn expired(cnt: u64, max_cnt: u64) -> bool {
    max_cnt < cnt
}

/// Whether `k` is a registered key that is expired under `max_cnt` and comes
/// after `prev`, where there is a `prev`.
pub open spec fn due(m: Map<u128, u64>, prev: Option<u128>, max_cnt: u64, k: u128) -> bool {
    &&& m.contains_key(k)
    &&& expired(m[k], max_cnt)
    &&& prev matches Some(p) ==> p < k
}

/// Whether `k` is the first key, by value, that is due.
pub open spec fn first_due(m: Map<u128, u64>, prev: Option<u128>, max_cnt: u64, k: u128) -> bool {
    &&& due(m, prev, max_cnt, k)
    &&& forall|j: u128| due(m, prev, max_cnt, j) ==> k <= j
}

/// Whether no key is due.
pub open spec fn none_due(m: Map<u128, u64>, prev: Option<u128>, max_cnt: u64) -> bool {
    forall|j: u128| !due(m, prev, max_cnt, j)
}

/// Whether the keys of `found` ascend by value.
pub open spec fn ascending(found: Seq<Uuid>) -> bool {
    forall|a: int, b: int| 0 <= a < b < found.len() ==> found[a]@ < found[b]@
}

/// Whether the key with the value `k` is among `found`.
pub open spec fn listed(found: Seq<Uuid>, k: u128) -> bool {
    exists|n: int| 0 <= n < found.len() && found[n]@ == k
}

/// Whether every registered key still has the counter 0.
pub open spec fn unused(m: Map<u128, u64>) -> bool {
    forall|k: u128| m.contains_key(k) ==> m[k] == 0
}

/// The registry after an attempt to register `k`: a key that is already
/// there keeps its counter.
pub open spec fn after_register(m: Map<u128, u64>, k: u128) -> Map<u128, u64> {
    if m.contains_key(k) {
        m
    } else {
        m.insert(k, 0)
    }
}

impl View for Container {
    type V = Map<u128, u64>;

    /// The counter of every registered key, by the key's value.
    closed spec fn view(&self) -> Map<u128, u64> {
        self.m@
    }
}

impl Default for Container {
    /// A registry without keys.
    fn default() -> (c: Self)
        ensures
            c@ == Map::<u128, u64>::empty(),
    {
        Container { m: BTreeMap::new() }
    }
}

impl Container {
    /// A registry without keys.
    pub fn new() -> (c: Self)
        ensures
            c@ == Map::<u128, u64>::empty(),
    {
        Container { m: BTreeMap::new() }
    }

    /// The number of registered keys.
    pub fn len(&self) -> (n: usize)
        ensures
            n == self@.len(),
            self@.dom().finite(),
    {
        self.m.len()
    }

    /// The counter of `key`, where it is registered.
    pub fn counter(&self, key: Uuid) -> (cnt: Option<u64>)
        ensures
            cnt is Some <==> self@.contains_key(key@),
            cnt matches Some(n) ==> n == self@[key@],
    {
        let k: u128 = key.as_u128();
        match self.m.get(&k) {
            Some(n) => Some(*n),
            None => None,
        }
    }

    /// The first key after `prev`, where there is a `prev`, that is expired
    /// under `max_cnt`.
    fn scan(&self, prev: Option<u128>, max_cnt: u64) -> (found: Option<u128>)
        ensures
            match found {
                Some(k) => first_due(self@, prev, max_cnt, k),
                None => none_due(self@, prev, max_cnt),
            },
    {
        let entries = self.m.iter();
        let ghost all = entries.remaining();
        let ghost keys = all.map_values(|kv: (&u128, &u64)| *kv.0);
        proof {
            lemma_keys_ascend(keys);
        }
        for entry in it: entries
            invariant
                it.seq() == all,
                all == vstd::std_specs::btree::spec_btree_map_iter(&self.m).remaining(),
                keys == all.map_values(|kv: (&u128, &u64)| *kv.0),
                forall|i: int, j: int| 0 <= i < j < keys.len() ==> keys[i] < keys[j],
                forall|i: int| 0 <= i < it.index() ==> !due(self@, prev, max_cnt, #[trigger] keys[i]),
        {
            let k: u128 = *entry.0;
            let cnt: u64 = *entry.1;
            assert(all[it.index()] == entry);
            assert(keys[it.index()] == k);
            assert(self@.contains_key(k) && self@[k] == cnt);
            let after_prev: bool = match prev {
                Some(p) => p < k,
                None => true,
            };
            if after_prev && Self::is_expired(cnt, max_cnt) {
                assert forall|j: u128| due(self@, prev, max_cnt, j) implies k <= j by {
                    let item = (&j, &self@[j]);
                    assert(all.contains(item));
                    let i = choose|i: int| 0 <= i < all.len() && all[i] == item;
                    assert(keys[i] == j);
                }
                return Some(k);
            }
        }
        assert forall|j: u128| !due(self@, prev, max_cnt, j) by {
            if self@.contains_key(j) {
                let item = (&j, &self@[j]);
                assert(all.contains(item));
                let i = choose|i: int| 0 <= i < all.len() && all[i] == item;
                assert(keys[i] == j);
            }
        }
        None
    }

    /// The first key, by value, that is expired under `max_cnt`.
    pub fn first_expired_key(&self, max_cnt: u64) -> (found: Option<Uuid>)
        ensures
            match found {
                Some(k) => first_due(self@, None, max_cnt, k@),
                None => none_due(self@, None, max_cnt),
            },
    {
        match self.scan(None, max_cnt) {
            Some(k) => Some(Uuid::from_u128(k)),
            None => None,
        }
    }

    /// Whether a key that was used `cnt` times is expired under the threshold
    /// `max_cnt`: it is where the counter exceeds the threshold.
    pub fn is_expired(cnt: u64, max_cnt: u64) -> (b: bool)
        ensures
            b == expired(cnt, max_cnt),
    {
        max_cnt < cnt
    }

    /// The first key after `prev`, by value, that is expired under
    /// `max_cnt`.
    pub fn next_expired_key(&self, prev: Uuid, max_cnt: u64) -> (found: Option<Uuid>)
        ensures
            match found {
                Some(k) => first_due(self@, Some(prev@), max_cnt, k@),
                None => none_due(self@, Some(prev@), max_cnt),
            },
    {
        match self.scan(Some(prev.as_u128()), max_cnt) {
            Some(k) => Some(Uuid::from_u128(k)),
            None => None,
        }
    }

    /// One step of a forward scan for expired keys: the first one where
    /// `prev` is absent, else the first one after `prev`. Where no further
    /// key is expired the answer is that nothing was found.
    pub fn expired_key(&self, prev: Option<Uuid>, max_cnt: u64) -> (r: Result<Uuid, Status>)
        ensures
            match r {
                Ok(k) => first_due(self@, value_of(prev), max_cnt, k@),
                Err(e) => none_due(self@, value_of(prev), max_cnt) && e.is(
                    Code::NotFound,
                    "no expired keys found"@,
                ),
            },
    {
        let o: Option<Uuid> = match prev {
            None => self.first_expired_key(max_cnt),
            Some(p) => self.next_expired_key(p, max_cnt),
        };
        match o {
            Some(k) => Ok(k),
            None => Err(Status::not_found("no expired keys found")),
        }
    }

    /// Every key that is expired under `max_cnt`, in ascending order.
    pub fn expired_keys(&self, max_cnt: u64) -> (found: Vec<Uuid>)
        ensures
            ascending(found@),
            forall|k: u128|
                #![trigger due(self@, None, max_cnt, k)]
                #![trigger listed(found@, k)]
                due(self@, None, max_cnt, k) <==> listed(found@, k),
    {
        let mut found: Vec<Uuid> = Vec::new();
        let entries = self.m.iter();
        let ghost all = entries.remaining();
        let ghost keys = all.map_values(|kv: (&u128, &u64)| *kv.0);
        proof {
            lemma_keys_ascend(keys);
        }
        for entry in it: entries
            invariant
                it.seq() == all,
                all == vstd::std_specs::btree::spec_btree_map_iter(&self.m).remaining(),
                keys == all.map_values(|kv: (&u128, &u64)| *kv.0),
                forall|i: int, j: int| 0 <= i < j < keys.len() ==> keys[i] < keys[j],
                ascending(found@),
                forall|n: int, i: int|
                    0 <= n < found@.len() && it.index() <= i < keys.len() ==> (
                    #[trigger] found@[n])@ < #[trigger] keys[i],
                forall|n: int|
                    0 <= n < found@.len() ==> due(self@, None, max_cnt, (#[trigger] found@[n])@),
                forall|i: int|
                    0 <= i < it.index() && due(self@, None, max_cnt, #[trigger] keys[i])
                        ==> listed(found@, keys[i]),
        {
            let k: u128 = *entry.0;
            let cnt: u64 = *entry.1;
            assert(all[it.index()] == entry);
            assert(keys[it.index()] == k);
            assert(self@.contains_key(k) && self@[k] == cnt);
            let ghost before = found@;
            if Self::is_expired(cnt, max_cnt) {
                found.push(Uuid::from_u128(k));
                assert(found@[before.len() as int]@ == keys[it.index()]);
            }
            assert forall|i: int|
                0 <= i < it.index() + 1 && due(self@, None, max_cnt, #[trigger] keys[i])
                    implies listed(found@, keys[i]) by {
                if i < it.index() {
                    assert(listed(before, keys[i]));
                    let n = choose|n: int| 0 <= n < before.len() && before[n]@ == keys[i];
                    assert(found@[n]@ == keys[i]);
                } else {
                    assert(found@[before.len() as int]@ == keys[i]);
                }
            }
        }
        assert forall|k: u128| due(self@, None, max_cnt, k) implies listed(found@, k) by {
            let item = (&k, &self@[k]);
            assert(all.contains(item));
            let i = choose|i: int| 0 <= i < all.len() && all[i] == item;
            assert(keys[i] == k);
        }
        assert forall|k: u128| listed(found@, k) implies due(self@, None, max_cnt, k) by {
            let n = choose|n: int| 0 <= n < found@.len() && found@[n]@ == k;
            assert(due(self@, None, max_cnt, found@[n]@));
        }
        found
    }

    /// Registers `key` with the counter 0. A key that is already registered
    /// is refused and keeps its counter.
    pub fn register(&mut self, key: Uuid) -> (r: Result<(), Status>)
        ensures
            final(self)@ == after_register(old(self)@, key@),
            r is Ok <==> !old(self)@.contains_key(key@),
            r matches Err(e) ==> e.is(Code::AlreadyExists, with_id("dup found. key: "@, key@)),
    {
        let k: u128 = key.as_u128();
        match self.m.insert(k, 0) {
            None => Ok(()),
            Some(overwritten) => {
                self.m.insert(k, overwritten);
                assert(self.m@ =~= old(self)@);
                Err(Status::about_id(Code::AlreadyExists, "dup found. key: ", key))
            },
        }
    }
}

/// A map walks its keys in ascending order of their values.
proof fn lemma_keys_ascend(keys: Seq<u128>)
    requires
        increasing_seq(keys),
    ensures
        forall|i: int, j: int| 0 <= i < j < keys.len() ==> keys[i] < keys[j],
{
    assert forall|i: int, j: int| 0 <= i < j < keys.len() implies keys[i] < keys[j] by {
        assert(keys[i].cmp_spec(&keys[j]) is Less);
    }
}

/// The value of an optional key.
pub open spec fn value_of(key: Option<Uuid>) -> Option<u128> {
    match key {
        Some(k) => Some(k@),
        None => None,
    }
}

/// A command to the tracker.
#[derive(Clone, Copy, Debug, PartialEq, Eq)]
pub enum Req {
    /// Find the first expired key, or the first one after this key.
    ExpiredKey(Option<Uuid>),
    /// Register this key.
    Register(Uuid),
}

/// The tracker's answer to a command.
#[derive(Debug, PartialEq, Eq)]
pub enum Reply {
    /// The expired key that was found, or why there is none.
    ExpiredKey(Result<Uuid, Status>),
    /// Whether the key was registered.
    Register(Result<(), Status>),
}

/// What a scan for expired keys does with the answer to one of its steps.
#[derive(Debug, PartialEq, Eq)]
pub enum Scan {
    /// Hand out this key and ask for the first one after it.
    Yield(Uuid),
    /// End the scan: there is no further expired key.
    End,
    /// Hand out this failure and end the scan.
    Fail(Status),
}

impl Req {
    /// Answers one step of a scan for expired keys in `c`.
    pub fn handle_expired_key(c: &Container, prev: Option<Uuid>, max_cnt: u64) -> (r: Result<
        Uuid,
        Status,
    >)
        ensures
            match r {
                Ok(k) => first_due(c@, value_of(prev), max_cnt, k@),
                Err(e) => none_due(c@, value_of(prev), max_cnt) && e.is(
                    Code::NotFound,
                    "no expired keys found"@,
                ),
            },
    {
        c.expired_key(prev, max_cnt)
    }

    /// Registers `key` in `c`.
    pub fn handle_register_key(c: &mut Container, key: Uuid) -> (r: Result<(), Status>)
        ensures
            final(c)@ == after_register(old(c)@, key@),
            r is Ok <==> !old(c)@.contains_key(key@),
            r matches Err(e) ==> e.is(Code::AlreadyExists, with_id("dup found. key: "@, key@)),
    {
        c.register(key)
    }
}

/// The expiration tracker: a registry and the threshold above which a
/// counter marks its key as expired.
pub struct Svc {
    c: Container,
    max_cnt: u64,
}

impl View for Svc {
    type V = Map<u128, u64>;

    /// The counter of every registered key, by the key's value.
    closed spec fn view(&self) -> Map<u128, u64> {
        self.c@
    }
}

impl Svc {
    /// The threshold.
    pub closed spec fn max_cnt(&self) -> u64 {
        self.max_cnt
    }

    /// One step of a scan for expired keys: the first one where `prev` is
    /// absent, else the first one after `prev`.
    pub fn get_expired_key(&self, prev: Option<Uuid>) -> (r: Result<Uuid, Status>)
        ensures
            match r {
                Ok(k) => first_due(self@, value_of(prev), self.max_cnt(), k@),
                Err(e) => none_due(self@, value_of(prev), self.max_cnt()) && e.is(
                    Code::NotFound,
                    "no expired keys found"@,
                ),
            },
    {
        Req::handle_expired_key(&self.c, prev, self.max_cnt)
    }

    /// Registers `key` with the counter 0. A key that is already registered
    /// is refused and keeps its counter.
    pub fn register_key(&mut self, key: Uuid) -> (r: Result<(), Status>)
        ensures
            final(self).max_cnt() == old(self).max_cnt(),
            final(self)@ == after_register(old(self)@, key@),
            r is Ok <==> !old(self)@.contains_key(key@),
            r matches Err(e) ==> e.is(Code::AlreadyExists, with_id("dup found. key: "@, key@)),
    {
        Req::handle_register_key(&mut self.c, key)
    }

    /// The counter of `key`, where it is registered.
    pub fn counter(&self, key: Uuid) -> (cnt: Option<u64>)
        ensures
            cnt is Some <==> self@.contains_key(key@),
            cnt matches Some(n) ==> n == self@[key@],
    {
        self.c.counter(key)
    }

    /// What a scan does with the answer `r` to one of its steps: it hands
    /// out a key and goes on after it, ends silently where nothing was found,
    /// and hands out any other failure before it ends.
    pub fn scan(r: Result<Uuid, Status>) -> (s: Scan)
        ensures
            match r {
                Ok(k) => s == Scan::Yield(k),
                Err(e) => if e.code == Code::NotFound {
                    s is End
                } else {
                    s == Scan::Fail(e)
                },
            },
    {
        match r {
            Ok(k) => Scan::Yield(k),
            Err(e) => {
                if Poller::retries(&e) {
                    Scan::End
                } else {
                    Scan::Fail(e)
                }
            },
        }
    }

    /// Applies one command.
    pub fn handle(&mut self, req: Req) -> (reply: Reply)
        ensures
            final(self).max_cnt() == old(self).max_cnt(),
            match req {
                Req::ExpiredKey(prev) => {
                    &&& final(self)@ == old(self)@
                    &&& reply matches Reply::ExpiredKey(r)
                    &&& match r {
                        Ok(k) => first_due(old(self)@, value_of(prev), old(self).max_cnt(), k@),
                        Err(e) => none_due(old(self)@, value_of(prev), old(self).max_cnt())
                            && e.is(Code::NotFound, "no expired keys found"@),
                    }
                },
                Req::Register(key) => {
                    &&& final(self)@ == after_register(old(self)@, key@)
                    &&& reply matches Reply::Register(r)
                    &&& r is Ok <==> !old(self)@.contains_key(key@)
                    &&& r matches Err(e) ==> e.is(
                        Code::AlreadyExists,
                        with_id("dup found. key: "@, key@),
                    )
                },
            },
    {
        match req {
            Req::ExpiredKey(prev) => Reply::ExpiredKey(self.get_expired_key(prev)),
            Req::Register(key) => Reply::Register(self.register_key(key)),
        }
    }
}

impl ExpireService for Svc {
    /// The answer lists every key that is expired now, in ascending order:
    /// what a scan hands out when nothing changes while it runs.
    open spec fn expired_spec(&self, r: Result<Vec<Uuid>, Status>) -> bool {
        &&& r matches Ok(found)
        &&& ascending(found@)
        &&& forall|k: u128|
            #![trigger due(self@, None, self.max_cnt(), k)]
            #![trigger listed(found@, k)]
            due(self@, None, self.max_cnt(), k) <==> listed(found@, k)
    }

    /// A new key is registered with the counter 0. A key that is already
    /// registered is refused as already existing and keeps its counter.
    open spec fn register_spec(&self, key: Uuid, after: Self, r: Result<(), Status>) -> bool {
        &&& after.max_cnt() == self.max_cnt()
        &&& after@ == after_register(self@, key@)
        &&& if self@.contains_key(key@) {
            fails(r, Code::AlreadyExists, with_id("dup found. key: "@, key@))
        } else {
            r is Ok
        }
    }

    fn expired_keys(&self) -> (r: Result<Vec<Uuid>, Status>) {
        Ok(self.c.expired_keys(self.max_cnt))
    }

    fn register_key(&mut self, key: Uuid) -> (r: Result<(), Status>) {
        Req::handle_register_key(&mut self.c, key)
    }
}

/// A tracker over the registry `c` with the threshold `max_cnt`.
pub fn svc_new(max_cnt: u64, c: Container) -> (s: Svc)
    ensures
        s@ == c@,
        s.max_cnt() == max_cnt,
{
    Svc { c, max_cnt }
}

/// A tracker without keys with the threshold `max_cnt`.
pub fn expire_service_new(max_cnt: u64) -> (s: Svc)
    ensures
        s@ == Map::<u128, u64>::empty(),
        s.max_cnt() == max_cnt,
{
    svc_new(max_cnt, Container::new())
}

/// A key that is registered twice is refused the second time and keeps the
/// counter it had: the second attempt leaves the registry as the first left
/// it.
pub proof fn lemma_register_twice(m: Map<u128, u64>, k: u128)
    ensures
        after_register(m, k).contains_key(k),
        after_register(after_register(m, k), k) == after_register(m, k),
        after_register(m, k)[k] == if m.contains_key(k) { m[k] } else { 0 },
{
}

/// Registering a key touches no other key.
pub proof fn lemma_register_keeps_others(m: Map<u128, u64>, k: u128, other: u128)
    requires
        other != k,
    ensures
        after_register(m, k).contains_key(other) == m.contains_key(other),
        m.contains_key(other) ==> after_register(m, k)[other] == m[other],
{
}

/// Registration starts every key unused and nothing uses a key afterwards,
/// so no registered key is ever expired, whatever the threshold.
pub proof fn lemma_unused_keys_never_expire(
    m: Map<u128, u64>,
    k: u128,
    prev: Option<u128>,
    max_cnt: u64,
)
    requires
        unused(m),
    ensures
        unused(after_register(m, k)),
        none_due(m, prev, max_cnt),
        none_due(after_register(m, k), prev, max_cnt),
{
}

/// A scan by steps hands out what the whole list holds: the list's first key
/// is the first step's answer, each later key is the answer to the step
/// after the key before it, and the step after the last key finds nothing.
pub proof fn lemma_scan_follows_list(m: Map<u128, u64>, max_cnt: u64, found: Seq<Uuid>)
    requires
        ascending(found),
        forall|k: u128|
            #![trigger due(m, None, max_cnt, k)]
            #![trigger listed(found, k)]
            due(m, None, max_cnt, k) <==> listed(found, k),
    ensures
        found.len() == 0 ==> none_due(m, None, max_cnt),
        found.len() > 0 ==> first_due(m, None, max_cnt, found[0]@),
        forall|n: int|
            0 <= n < found.len() - 1 ==> first_due(
                m,
                Some(found[n]@),
                max_cnt,
                #[trigger] found[n + 1]@,
            ),
        found.len() > 0 ==> none_due(m, Some(found.last()@), max_cnt),
{
    assert forall|n: int| 0 <= n < found.len() implies listed(found, #[trigger] found[n]@) by {}
    if found.len() > 0 {
        assert(listed(found, found[0]@));
        assert forall|j: u128| due(m, None, max_cnt, j) implies found[0]@ <= j by {
            let n = choose|n: int| 0 <= n < found.len() && found[n]@ == j;
        }
        assert forall|j: u128| !due(m, Some(found.last()@), max_cnt, j) by {
            if due(m, Some(found.last()@), max_cnt, j) {
                assert(due(m, None, max_cnt, j));
                let n = choose|n: int| 0 <= n < found.len() && found[n]@ == j;
            }
        }
    }
    assert forall|n: int| 0 <= n < found.len() - 1 implies first_due(
        m,
        Some(found[n]@),
        max_cnt,
        #[trigger] found[n + 1]@,
    ) by {
        assert(listed(found, found[n + 1]@));
        assert forall|j: u128| due(m, Some(found[n]@), max_cnt, j) implies found[n + 1]@ <= j by {
            assert(due(m, None, max_cnt, j));
            let i = choose|i: int| 0 <= i < found.len() && found[i]@ == j;
            if i <= n {
                if i < n {
                    assert(found[i]@ < found[n]@);
                }
            } else if i > n + 1 {
                assert(found[n + 1]@ < found[i]@);
            }
        }
    }
}

} // verus!
