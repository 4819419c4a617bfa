//! Work that is not repeated within a given time.
use crate::cluster_availability::age;
use crate::text::{lit, str_eq};
use vstd::prelude::*;
use vstd::string::*;

verus! {

/// When something was last done: its key, and the time in milliseconds.
#[derive(Debug, PartialEq, Eq)]
pub struct Stamp {
    pub key: String,
    pub at: u64,
}

/// The last time of a key.
pub open spec fn stamp_on(v: Seq<Stamp>, key: Seq<char>) -> Option<u64>
    decreases v.len(),
{
    if v.len() == 0 {
        None
    } else if v.last().key@ == key {
        Some(v.last().at)
    } else {
        stamp_on(v.drop_last(), key)
    }
}

/// What was last done when.
#[derive(Debug, PartialEq, Eq)]
pub struct Throttle {
    pub stamps: Vec<Stamp>,
}

impl Throttle {
    /// The last time of a key.
    pub open spec fn last(self, key: Seq<char>) -> Option<u64> {
        stamp_on(self.stamps@, key)
    }

    /// The key was last done less than `ttl` ago.
    pub open spec fn recent(self, key: Seq<char>, now: u64, ttl: u64) -> bool {
        match self.last(key) {
            Some(at) => age(at, now) < ttl,
            None => false,
        }
    }

    pub fn new() -> (r: Throttle)
        ensures
            forall|key: Seq<char>| #[trigger] r.last(key) is None,
    {
        Throttle { stamps: Vec::new() }
    }

    /// Whether it is time to do something again. If so it counts as done now;
    /// `force` does it whatever the time.
    pub fn try_now(&mut self, key: &str, now: u64, ttl: u64, force: bool) -> (r: bool)
        ensures
            r == (force || !old(self).recent(key@, now, ttl)),
            !r ==> *final(self) == *old(self),
            r ==> final(self).last(key@) == Some(now),
            forall|k: Seq<char>| k != key@ ==> #[trigger] final(self).last(k) == old(self).last(k),
    {
        let ghost v = self.stamps@;
        let mut k: usize = self.stamps.len();
        assert(v.take(k as int) =~= v);
        while k > 0 && !str_eq(&self.stamps[k - 1].key, key)
            invariant
                k <= self.stamps@.len(),
                v == self.stamps@,
                *self == *old(self),
                stamp_on(v, key@) == stamp_on(v.take(k as int), key@),
                forall|j: int| k <= j < v.len() ==> (#[trigger] v[j]).key@ != key@,
            decreases k,
        {
            assert(v.take(k as int).drop_last() =~= v.take(k - 1));
            assert(v.take(k as int).last() == v[k - 1]);
            k -= 1;
        }
        if k > 0 {
            assert(v.take(k as int).last() == v[k - 1]);
            let at: u64 = self.stamps[k - 1].at;
            let passed: u64 = if at <= now {
                now - at
            } else {
                0
            };
            if !force && passed < ttl {
                return false;
            }
            self.stamps.set(k - 1, Stamp { key: lit(key), at: now });
            proof {
                lemma_stamp_set(v, k - 1, self.stamps@[k - 1], key@, true);
                assert forall|o: Seq<char>| o != key@ implies #[trigger] self.last(o) == stamp_on(
                    v,
                    o,
                ) by {
                    lemma_stamp_set(v, k - 1, self.stamps@[k - 1], o, false);
                }
            }
            true
        } else {
            self.stamps.push(Stamp { key: lit(key), at: now });
            assert(self.stamps@.drop_last() =~= v);
            true
        }
    }
}

proof fn lemma_stamp_set(v: Seq<Stamp>, k: int, s: Stamp, key: Seq<char>, same: bool)
    requires
        0 <= k < v.len(),
        s.key@ == v[k].key@,
        same == (key == s.key@),
        same ==> forall|j: int| k < j < v.len() ==> (#[trigger] v[j]).key@ != key,
    ensures
        same ==> stamp_on(v.update(k, s), key) == Some(s.at),
        !same ==> stamp_on(v.update(k, s), key) == stamp_on(v, key),
    decreases v.len(),
{
    if k == v.len() - 1 {
        assert(v.update(k, s).drop_last() =~= v.drop_last());
    } else {
        let w = v.drop_last();
        assert(v.update(k, s).drop_last() =~= w.update(k, s));
        assert(v.last() == v[v.len() - 1]);
        assert forall|j: int| same && k < j < w.len() implies (#[trigger] w[j]).key@ != key by {
            assert(w[j] == v[j]);
        }
        lemma_stamp_set(w, k, s, key, same);
    }
}

/// What was done at a time is not done again before `ttl` has passed.
pub proof fn law_not_again_too_soon(t: Throttle, key: Seq<char>, at: u64, now: u64, ttl: u64)
    requires
        t.last(key) == Some(at),
        now < at + ttl,
        ttl > 0,
    ensures
        t.recent(key, now, ttl),
{
}

} // verus!
