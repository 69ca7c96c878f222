//! A string-keyed cache whose entries expire after a fixed time to live.

use vstd::prelude::*;
use crate::keyed::KeyedMap;
use std::time::{Duration, Instant};

verus! {

#[verifier::external_type_specification]
#[verifier::external_body]
pub struct ExInstant(std::time::Instant);

/// The nanoseconds of `Duration::MAX` (`u64::MAX` seconds and 999 999 999
/// nanoseconds), the most any duration holds.
pub open spec fn max_duration_nanos() -> int {
    18446744073709551615999999999int
}

/// `Instant::now()`: a point of the monotonic clock; nothing is stated of it.
#[verifier::external_body]
fn instant_now() -> (r: Instant) {
    Instant::now()
}

/// `Instant::elapsed`: the time since `origin`; nothing is stated of it.
#[verifier::external_body]
fn instant_elapsed(origin: &Instant) -> (r: Duration) {
    origin.elapsed()
}

/// `Duration::as_nanos`: the whole nanoseconds of a duration, at most those
/// of `Duration::MAX`.
#[verifier::external_body]
fn duration_nanos(d: Duration) -> (r: u128)
    ensures
        r <= max_duration_nanos(),
{
    d.as_nanos()
}

/// A cached value and the time (nanoseconds after the cache's creation) at
/// which it expires.
pub struct CacheEntry<T> {
    pub value: T,
    pub expires_at: u128,
}

/// The live value under `key` at time `now`: present while `now` is before
/// its expiry.
pub open spec fn lookup<T>(m: Map<Seq<char>, CacheEntry<T>>, key: Seq<char>, now: int) -> Option<T> {
    if m.contains_key(key) && m[key].expires_at > now {
        Some(m[key].value)
    } else {
        None
    }
}

/// `r` is what a read of `key` at time `now` gives: a clone of the live
/// value, or nothing.
pub open spec fn read_at<T: Clone>(m: Map<Seq<char>, CacheEntry<T>>, key: Seq<char>, now: int, r: Option<T>) -> bool {
    match lookup(m, key, now) {
        Some(v) => r matches Some(c) && cloned(v, c),
        None => r is None,
    }
}

/// A cache of values by string key; every value lives for the same time.
pub struct InMemoryCache<T> {
    entries: KeyedMap<CacheEntry<T>>,
    ttl: u128,
    origin: Instant,
}

impl<T: Clone> InMemoryCache<T> {
    /// The entries, by key.
    pub closed spec fn entries(&self) -> Map<Seq<char>, CacheEntry<T>> {
        self.entries@
    }

    /// The time to live, in nanoseconds.
    pub closed spec fn ttl(&self) -> int {
        self.ttl as int
    }

    /// An empty cache whose values live for `ttl_nanos` nanoseconds (at most
    /// what a `Duration` holds).
    pub fn new(ttl_nanos: u128) -> (r: InMemoryCache<T>)
        requires
            ttl_nanos <= max_duration_nanos(),
        ensures
            r.entries() == Map::<Seq<char>, CacheEntry<T>>::empty(),
            r.ttl() == ttl_nanos,
    {
        InMemoryCache { entries: KeyedMap::new(), ttl: ttl_nanos, origin: instant_now() }
    }

    /// Nanoseconds since the cache was created.
    fn now(&self) -> (r: u128)
        ensures
            r <= max_duration_nanos(),
    {
        duration_nanos(instant_elapsed(&self.origin))
    }

    /// The value under `key` at time `now`, if present and not expired.
    pub fn get_at(&self, key: &str, now: u128) -> (r: Option<T>)
        ensures
            match lookup(self.entries(), key@, now as int) {
                Some(v) => r matches Some(c) && cloned(v, c),
                None => r is None,
            },
    {
        match self.entries.get(key) {
            Some(entry) => {
                if entry.expires_at > now {
                    Some(entry.value.clone())
                } else {
                    None
                }
            },
            None => None,
        }
    }

    /// The value under `key`, if present and not expired: the read at the
    /// clock's current reading (nanoseconds since the cache was created),
    /// which is some time within `Duration`'s range; so a clone of the stored
    /// value, or nothing, and nothing for a key without an entry.
    pub fn get(&self, key: &str) -> (r: Option<T>)
        ensures
            exists|t: int| 0 <= t <= max_duration_nanos() && #[trigger] read_at(self.entries(), key@, t, r),
            r matches Some(c) ==> self.entries().contains_key(key@) && cloned(self.entries()[key@].value, c),
            !self.entries().contains_key(key@) ==> r is None,
    {
        let now = self.now();
        let r = self.get_at(key, now);
        proof {
            assert(read_at(self.entries(), key@, now as int, r));
        }
        r
    }

    /// Stores `value` under `key` at time `now`; it expires `ttl` later.
    pub fn set_at(&mut self, key: String, value: T, now: u128)
        requires
            now + old(self).ttl() <= u128::MAX,
        ensures
            final(self).entries() == old(self).entries().insert(
                key@,
                CacheEntry { value, expires_at: (now + old(self).ttl()) as u128 },
            ),
            final(self).ttl() == old(self).ttl(),
    {
        let entry = CacheEntry { value, expires_at: now + self.ttl };
        self.entries.insert(key, entry);
    }

    /// Stores `value` under `key`; it expires one time to live after the
    /// clock's current reading (some time within `Duration`'s range), and
    /// the other entries stay as they were.
    pub fn set(&mut self, key: String, value: T)
        requires
            old(self).ttl() <= max_duration_nanos(),
        ensures
            final(self).entries().dom() == old(self).entries().dom().insert(key@),
            final(self).entries()[key@].value == value,
            0 <= final(self).entries()[key@].expires_at - old(self).ttl() <= max_duration_nanos(),
            forall|k: Seq<char>| k != key@ && #[trigger] old(self).entries().contains_key(k) ==> final(self).entries()[k]
                == old(self).entries()[k],
            final(self).ttl() == old(self).ttl(),
    {
        let now = self.now();
        self.set_at(key, value, now);
    }

    /// Drops the value under `key`.
    pub fn invalidate(&mut self, key: &str)
        ensures
            final(self).entries() == old(self).entries().remove(key@),
            final(self).ttl() == old(self).ttl(),
    {
        self.entries.remove(key);
    }

    /// Drops every value expired at time `now`.
    pub fn clear_expired_at(&mut self, now: u128)
        ensures
            cleared_at(old(self).entries(), final(self).entries(), now),
            final(self).ttl() == old(self).ttl(),
    {
        let keys = self.entries.keys();
        let ghost start = self.entries@;
        let mut i: usize = 0;
        while i < keys.len()
            invariant
                i <= keys@.len(),
                self.ttl == old(self).ttl,
                start == old(self).entries@,
                forall|k: Seq<char>|
                    start.contains_key(k) ==> exists|j: int| 0 <= j < keys@.len() && #[trigger] keys@[j]@ == k,
                forall|k: Seq<char>|
                    #[trigger] self.entries@.contains_key(k) ==> start.contains_key(k) && self.entries@[k] == start[k],
                forall|k: Seq<char>|
                    start.contains_key(k) && start[k].expires_at > now ==> #[trigger] self.entries@.contains_key(k),
                forall|j: int|
                    0 <= j < i ==> (start.contains_key(#[trigger] keys@[j]@) && !(start[keys@[j]@].expires_at > now)
                        ==> !self.entries@.contains_key(keys@[j]@)),
            decreases keys@.len() - i,
        {
            let expired = match self.entries.get(keys[i].as_str()) {
                Some(e) => !(e.expires_at > now),
                None => false,
            };
            if expired {
                self.entries.remove(keys[i].as_str());
            }
            i = i + 1;
        }
        proof {
            assert forall|k: Seq<char>| #[trigger] self.entries@.contains_key(k) <==> start.contains_key(k)
                && start[k].expires_at > now by {
                if start.contains_key(k) && !(start[k].expires_at > now) {
                    let j = choose|j: int| 0 <= j < keys@.len() && #[trigger] keys@[j]@ == k;
                    assert(keys@[j]@ == k);
                }
            }
        }
    }

    /// Drops every expired value; the values kept are those alive at one
    /// reading of the clock.
    pub fn clear_expired(&mut self)
        ensures
            exists|now: u128| #[trigger] cleared_at(old(self).entries(), final(self).entries(), now),
            final(self).ttl() == old(self).ttl(),
    {
        let now = self.now();
        self.clear_expired_at(now);
    }
}

/// `n` holds exactly the entries of `o` still alive at `now`, unchanged.
pub open spec fn cleared_at<T>(o: Map<Seq<char>, CacheEntry<T>>, n: Map<Seq<char>, CacheEntry<T>>, now: u128) -> bool {
    &&& forall|k: Seq<char>| #[trigger] n.contains_key(k) <==> o.contains_key(k) && o[k].expires_at > now
    &&& forall|k: Seq<char>| #[trigger] n.contains_key(k) ==> n[k] == o[k]
}

/// Law: a read before the expiry gives back what the last write stored
/// under the key, and writes under other keys do not change a read.
pub proof fn lemma_read_after_write<T>(
    m: Map<Seq<char>, CacheEntry<T>>,
    key: Seq<char>,
    other: Seq<char>,
    value: T,
    expires_at: u128,
    now: int,
)
    requires
        now < expires_at,
        other != key,
    ensures
        lookup(m.insert(key, CacheEntry { value, expires_at }), key, now) == Some(value),
        lookup(m.insert(key, CacheEntry { value, expires_at }), other, now) == lookup(m, other, now),
{
}

/// Law: once its expiry has passed, a value is no longer read.
pub proof fn lemma_expired_not_read<T>(m: Map<Seq<char>, CacheEntry<T>>, key: Seq<char>, now: int)
    requires
        m.contains_key(key),
        now >= m[key].expires_at,
    ensures
        lookup(m, key, now) is None,
{
}

/// Law: after an invalidation the key is not read.
pub proof fn lemma_invalidated_not_read<T>(m: Map<Seq<char>, CacheEntry<T>>, key: Seq<char>, now: int)
    ensures
        lookup(m.remove(key), key, now) is None,
{
}

} // verus!
