//! In-process freshness caches.
//!
//! The directory cache holds the last successfully loaded instance list
//! and the time of the next refresh; the negative-lookup cache remembers
//! recently failed validations per URL so the same bad input is not
//! probed again within a short window.  Both are owned values: the
//! serving layer wraps them for sharing and supplies the clock.

use vstd::prelude::*;

verus! {

use vstd::string::StringExecFns;
use crate::models::Instance;
use crate::sweep::CRON_INTERVAL;
use crate::text::str_equal;

/// How long a failed validation suppresses re-probing, in seconds.
pub const NEGATIVE_CACHE_TTL: u64 = 300;

/// How soon a failed directory reload is retried, in seconds.
pub const REFRESH_RETRY_DELAY: u64 = 60;

/// First index whose entry carries the key `k`; the length when none
/// does.
pub open spec fn key_index(s: Seq<(String, u64)>, k: Seq<char>) -> int
    decreases s.len(),
{
    if s.len() == 0 {
        0
    } else if s[0].0@ == k {
        0
    } else {
        1 + key_index(s.skip(1), k)
    }
}

/// No two entries carry the same key.
pub open spec fn distinct_keys(s: Seq<(String, u64)>) -> bool {
    forall|i: int, j: int| 0 <= i < j < s.len() ==> (#[trigger] s[i]).0@ != (#[trigger] s[j]).0@
}

/// `key_index` points at the first entry with the key, or at the end.
proof fn lemma_key_index(s: Seq<(String, u64)>, k: Seq<char>)
    ensures
        0 <= key_index(s, k) <= s.len(),
        key_index(s, k) < s.len() ==> s[key_index(s, k)].0@ == k,
        forall|j: int| 0 <= j < key_index(s, k) ==> (#[trigger] s[j]).0@ != k,
    decreases s.len(),
{
    if s.len() != 0 && s[0].0@ != k {
        lemma_key_index(s.skip(1), k);
        assert forall|j: int| 0 <= j < key_index(s, k) implies (#[trigger] s[j]).0@ != k by {
            if j > 0 {
                assert(s.skip(1)[j - 1] == s[j]);
            }
        }
        if key_index(s, k) < s.len() {
            assert(s.skip(1)[key_index(s, k) - 1] == s[key_index(s, k)]);
        }
    }
}

/// With distinct keys, any entry carrying `k` stands at `key_index`.
proof fn lemma_key_index_witness(s: Seq<(String, u64)>, k: Seq<char>, a: int)
    requires
        distinct_keys(s),
        0 <= a < s.len(),
        s[a].0@ == k,
    ensures
        key_index(s, k) == a,
{
    lemma_key_index(s, k);
    let ki = key_index(s, k);
    if ki < a {
        assert(s[ki].0@ != s[a].0@);
    }
    if a < ki {
        assert(s[a].0@ != k);
    }
}

/// A position before which `k` never occurs, and at which `k` occurs or
/// the entries end, is exactly `key_index`.
proof fn lemma_key_index_unique(s: Seq<(String, u64)>, k: Seq<char>, i: int)
    requires
        0 <= i <= s.len(),
        forall|j: int| 0 <= j < i ==> (#[trigger] s[j]).0@ != k,
        i < s.len() ==> s[i].0@ == k,
    ensures
        key_index(s, k) == i,
{
    lemma_key_index(s, k);
    if key_index(s, k) < i {
        assert(s[key_index(s, k)].0@ != k);
    }
    if i < key_index(s, k) {
        assert(s[i].0@ != k);
    }
}

/// The negative-lookup cache: per candidate URL, when its last failed
/// validation happened.
pub struct NegativeCache {
    ttl: u64,
    entries: Vec<(String, u64)>,
}

/// An entry is within its TTL at time `now`.
pub open spec fn spec_is_cached(c: NegativeCache, k: Seq<char>, now: u64) -> bool {
    c.has(k) && now <= c.failed_at(k) + c.spec_ttl()
}

impl NegativeCache {
    /// The TTL this cache was created with.
    pub closed spec fn spec_ttl(&self) -> u64 {
        self.ttl
    }

    /// Whether a failure is recorded under `k`.
    pub closed spec fn has(&self, k: Seq<char>) -> bool {
        key_index(self.entries@, k) < self.entries@.len()
    }

    /// The recorded failure time under `k`.
    pub closed spec fn failed_at(&self, k: Seq<char>) -> u64 {
        self.entries@[key_index(self.entries@, k)].1
    }

    /// Internal invariant: every URL appears at most once.
    pub closed spec fn wf(&self) -> bool {
        distinct_keys(self.entries@)
    }

    /// An empty cache with the given TTL.
    pub fn new(ttl: u64) -> (r: NegativeCache)
        ensures
            r.wf(),
            r.spec_ttl() == ttl,
            forall|k: Seq<char>| !(#[trigger] r.has(k)),
    {
        let r = NegativeCache { ttl, entries: Vec::new() };
        proof {
            assert forall|k: Seq<char>| !(#[trigger] r.has(k)) by {
                lemma_key_index(r.entries@, k);
            }
        }
        r
    }

    /// First index of `key` among the entries.
    fn find_entry(&self, key: &str) -> (r: usize)
        ensures
            r as int == key_index(self.entries@, key@),
    {
        let n = self.entries.len();
        let mut i: usize = 0;
        while i < n
            invariant
                i <= n,
                n == self.entries@.len(),
                forall|j: int| 0 <= j < i ==> (#[trigger] self.entries@[j]).0@ != key@,
            decreases n - i,
        {
            if str_equal(self.entries[i].0.as_str(), key) {
                proof {
                    lemma_key_index_unique(self.entries@, key@, i as int);
                }
                return i;
            }
            i += 1;
        }
        proof {
            lemma_key_index_unique(self.entries@, key@, n as int);
        }
        n
    }

    /// Record a failed validation of `key` at time `now`, replacing any
    /// earlier record.  Other keys are untouched.
    pub fn set_cached(&mut self, key: &str, now: u64)
        requires
            old(self).wf(),
        ensures
            final(self).wf(),
            final(self).spec_ttl() == old(self).spec_ttl(),
            final(self).has(key@),
            final(self).failed_at(key@) == now,
            forall|k2: Seq<char>|
                k2 != key@ ==> #[trigger] final(self).has(k2) == old(self).has(k2) && (old(
                    self,
                ).has(k2) ==> final(self).failed_at(k2) == old(self).failed_at(k2)),
    {
        let ghost s0 = self.entries@;
        proof {
            lemma_key_index(s0, key@);
        }
        let i = self.find_entry(key);
        let ghost removed = if (i as int) < s0.len() {
            s0.remove(i as int)
        } else {
            s0
        };
        if i < self.entries.len() {
            self.entries.remove(i);
        }
        proof {
            assert(self.entries@ == removed);
            // the remaining entries are those of s0 at shifted positions
            assert forall|j: int| 0 <= j < removed.len() implies (#[trigger] removed[j]) == (
            if j < i {
                s0[j]
            } else {
                s0[j + 1]
            }) by {}
            assert(distinct_keys(removed));
            // the key itself is gone from the remainder
            assert forall|j: int| 0 <= j < removed.len() implies (#[trigger] removed[j]).0@
                != key@ by {
                if (i as int) < s0.len() {
                    if j < i {
                    } else {
                        assert(removed[j] == s0[j + 1]);
                    }
                } else {
                    lemma_key_index(s0, key@);
                }
            }
        }
        let entry = (String::from_str(key), now);
        self.entries.push(entry);
        proof {
            let s2 = self.entries@;
            assert(s2 == removed.push(entry));
            assert(entry.0@ == key@);
            // well-formed again: the remainder had distinct keys, none of
            // them is `key`
            assert forall|a: int, b: int|
                0 <= a < b < s2.len() implies (#[trigger] s2[a]).0@ != (#[trigger] s2[b]).0@ by {
                if b < s2.len() - 1 {
                    assert(s2[a] == removed[a]);
                    assert(s2[b] == removed[b]);
                } else {
                    assert(s2[a] == removed[a]);
                    assert(s2[b].0@ == key@);
                }
            }
            lemma_key_index_witness(s2, key@, s2.len() - 1);
            // frame: other keys keep their entry and time
            assert forall|k2: Seq<char>|
                k2 != key@ implies #[trigger] final(self).has(k2) == old(self).has(k2) && (old(
                self,
            ).has(k2) ==> final(self).failed_at(k2) == old(self).failed_at(k2)) by {
                lemma_key_index(s0, k2);
                let ki0 = key_index(s0, k2);
                if ki0 < s0.len() {
                    // map the old witness into the new entries
                    let a = if (i as int) < s0.len() && ki0 > i {
                        ki0 - 1
                    } else {
                        ki0
                    };
                    assert(ki0 != i);
                    assert(s2[a] == s0[ki0]);
                    lemma_key_index_witness(s2, k2, a);
                } else {
                    // absent before, absent after
                    lemma_key_index(s2, k2);
                    if key_index(s2, k2) < s2.len() {
                        let b = key_index(s2, k2);
                        assert(s2[b].0@ == k2);
                        if b < s2.len() - 1 {
                            assert(s2[b] == removed[b]);
                            if (i as int) < s0.len() && b >= i {
                                assert(removed[b] == s0[b + 1]);
                                assert(s0[b + 1].0@ != k2);
                            } else {
                                assert(removed[b] == s0[b]);
                                assert(s0[b].0@ != k2);
                            }
                        }
                    }
                }
            }
        }
    }

    /// Look `key` up at time `now`.  Within the TTL the failure is
    /// still cached and nothing changes; an expired entry is removed and
    /// the lookup reports "not cached".  Other keys are untouched.
    pub fn is_cached(&mut self, key: &str, now: u64) -> (r: bool)
        requires
            old(self).wf(),
        ensures
            final(self).wf(),
            final(self).spec_ttl() == old(self).spec_ttl(),
            r == spec_is_cached(*old(self), key@, now),
            r ==> *final(self) == *old(self),
            !r ==> !final(self).has(key@),
            forall|k2: Seq<char>|
                k2 != key@ ==> #[trigger] final(self).has(k2) == old(self).has(k2) && (old(
                    self,
                ).has(k2) ==> final(self).failed_at(k2) == old(self).failed_at(k2)),
    {
        let ghost s0 = self.entries@;
        proof {
            lemma_key_index(s0, key@);
        }
        let i = self.find_entry(key);
        if i >= self.entries.len() {
            return false;
        }
        let ts = self.entries[i].1;
        let cached = now <= ts || now - ts <= self.ttl;
        if cached {
            return true;
        }
        self.entries.remove(i);
        proof {
            let s2 = self.entries@;
            assert(s2 == s0.remove(i as int));
            assert forall|j: int| 0 <= j < s2.len() implies (#[trigger] s2[j]) == (
            if j < i {
                s0[j]
            } else {
                s0[j + 1]
            }) by {}
            assert(distinct_keys(s2));
            // the key itself is gone
            assert forall|j: int| 0 <= j < s2.len() implies (#[trigger] s2[j]).0@ != key@ by {
                if j >= i {
                    assert(s2[j] == s0[j + 1]);
                }
            }
            lemma_key_index(s2, key@);
            if key_index(s2, key@) < s2.len() {
                assert(s2[key_index(s2, key@)].0@ == key@);
            }
            // frame: other keys keep their entry and time
            assert forall|k2: Seq<char>|
                k2 != key@ implies #[trigger] final(self).has(k2) == old(self).has(k2) && (old(
                self,
            ).has(k2) ==> final(self).failed_at(k2) == old(self).failed_at(k2)) by {
                lemma_key_index(s0, k2);
                let ki0 = key_index(s0, k2);
                if ki0 < s0.len() {
                    let a = if ki0 > i {
                        ki0 - 1
                    } else {
                        ki0
                    };
                    assert(ki0 != i);
                    assert(s2[a] == s0[ki0]);
                    lemma_key_index_witness(s2, k2, a);
                } else {
                    lemma_key_index(s2, k2);
                    if key_index(s2, k2) < s2.len() {
                        let b = key_index(s2, k2);
                        if b >= i {
                            assert(s2[b] == s0[b + 1]);
                            assert(s0[b + 1].0@ != k2);
                        } else {
                            assert(s2[b] == s0[b]);
                            assert(s0[b].0@ != k2);
                        }
                    }
                }
            }
        }
        false
    }
}

/// Law: a failure recorded at time `t` reads as cached at every time up
/// to `t` plus the TTL, and as expired at every later time; reading an
/// expired entry removes it (the removal is part of `is_cached`'s
/// contract).
pub proof fn lemma_negative_lookup_window(c: NegativeCache, k: Seq<char>, t: u64, t2: u64)
    requires
        c.has(k),
        c.failed_at(k) == t,
    ensures
        t2 <= t + c.spec_ttl() ==> spec_is_cached(c, k, t2),
        t2 > t + c.spec_ttl() ==> !spec_is_cached(c, k, t2),
{
}

/// The process-wide snapshot of the directory, refreshed at most once
/// per interval, plus the negative-lookup cache.
pub struct InstancesCache {
    /// When the next read may reload from the repository.
    pub timeout: u64,
    /// The last successfully loaded instance list.
    pub instances: Vec<Instance>,
    /// Failed candidate URLs, by time of failure.
    pub negative_lookups: NegativeCache,
}

/// A read at `now` must reload exactly when the refresh time has come.
pub open spec fn spec_needs_refresh(c: InstancesCache, now: u64) -> bool {
    now >= c.timeout
}

impl InstancesCache {
    /// An empty cache that reloads on first read.
    pub fn new() -> (r: InstancesCache)
        ensures
            r.timeout == 0,
            r.instances@.len() == 0,
            r.negative_lookups.wf(),
            r.negative_lookups.spec_ttl() == NEGATIVE_CACHE_TTL,
            forall|k: Seq<char>| !(#[trigger] r.negative_lookups.has(k)),
    {
        InstancesCache {
            timeout: 0,
            instances: Vec::new(),
            negative_lookups: NegativeCache::new(NEGATIVE_CACHE_TTL),
        }
    }

    /// Whether a read at `now` must reload the list first.
    pub fn needs_refresh(&self, now: u64) -> (r: bool)
        ensures
            r == spec_needs_refresh(*self, now),
    {
        now >= self.timeout
    }

    /// Install a freshly loaded list; the next reload is one full
    /// interval away.
    pub fn refresh_succeeded(&mut self, now: u64, list: Vec<Instance>)
        requires
            now + CRON_INTERVAL <= u64::MAX,
        ensures
            final(self).timeout == now + CRON_INTERVAL,
            final(self).instances == list,
            final(self).negative_lookups == old(self).negative_lookups,
    {
        self.timeout = now + CRON_INTERVAL;
        self.instances = list;
    }

    /// A reload failed: keep the stale snapshot, but retry much sooner
    /// than a full interval.
    pub fn refresh_failed(&mut self, now: u64)
        requires
            now + REFRESH_RETRY_DELAY <= u64::MAX,
        ensures
            final(self).timeout == now + REFRESH_RETRY_DELAY,
            final(self).instances == old(self).instances,
            final(self).negative_lookups == old(self).negative_lookups,
    {
        self.timeout = now + REFRESH_RETRY_DELAY;
    }

    /// Force the next read to reload: the directory content changed.
    pub fn invalidate(&mut self)
        ensures
            final(self).timeout == 0,
            final(self).instances == old(self).instances,
            final(self).negative_lookups == old(self).negative_lookups,
    {
        self.timeout = 0;
    }

    /// The current snapshot, for rendering the directory.
    pub fn current_listing(&self) -> (r: &Vec<Instance>)
        ensures
            r == self.instances,
    {
        &self.instances
    }
}

/// Law: after a successful refresh at `now`, no read strictly before
/// `now` plus the refresh interval needs another reload — at most one
/// reload happens per interval.  After a failed reload the snapshot is
/// unchanged (part of `refresh_failed`'s contract) and the retry comes
/// after the shorter delay, never later than a full interval.
pub proof fn lemma_one_reload_per_window(c: InstancesCache, now: u64, t: u64)
    requires
        c.timeout == now + CRON_INTERVAL,
        t < now + CRON_INTERVAL,
    ensures
        !spec_needs_refresh(c, t),
        REFRESH_RETRY_DELAY <= CRON_INTERVAL,
{
}

} // verus!
