//! Time-to-live cache for query results.
//!
//! A [`TtlCache`] maps keys to values stamped with the time they were stored;
//! a value is handed out only while it is younger than the cache's TTL.
//! Stale entries are evicted lazily: a read that finds its entry expired
//! removes it, and a `set` for the key replaces it.  Time is a monotonic clock reading in
//! nanoseconds that the caller supplies.
//!
//! [`QueryCache`] bundles the caches shared by all users, so that identical
//! requests reach the database once per TTL window.
use vstd::prelude::*;

use crate::models::filter::{clone_opt_string, SpotFilter, SpotFilterView};
use crate::models::spot::SpotStats;

verus! {

// ---------------------------------------------------------------------------
// Keys
// ---------------------------------------------------------------------------

/// A value usable as a cache key: keys are the same exactly when their views
/// are equal.
pub trait CacheKey: View + Sized {
    fn same_key(&self, other: &Self) -> (b: bool)
        ensures
            b == (self@ == other@),
    ;
}

impl CacheKey for SpotFilter {
    fn same_key(&self, other: &Self) -> (b: bool) {
        self.same_as(other)
    }
}

impl CacheKey for (i64, i64) {
    fn same_key(&self, other: &Self) -> (b: bool) {
        self.0 == other.0 && self.1 == other.1
    }
}

impl CacheKey for i64 {
    fn same_key(&self, other: &Self) -> (b: bool) {
        *self == *other
    }
}

impl CacheKey for () {
    fn same_key(&self, other: &Self) -> (b: bool) {
        true
    }
}

// ---------------------------------------------------------------------------
// Generic TTL cache
// ---------------------------------------------------------------------------

/// Time elapsed from `stored_at` to `now`; zero if the clock reads earlier.
pub open spec fn elapsed(stored_at: int, now: int) -> int {
    if now >= stored_at {
        now - stored_at
    } else {
        0
    }
}

/// True when an entry stored at `stored_at` is still fresh at `now`.
pub open spec fn is_fresh(stored_at: int, now: int, ttl: int) -> bool {
    elapsed(stored_at, now) < ttl
}

/// A key-value cache whose entries expire a fixed time after they are stored.
pub struct TtlCache<K, V> {
    entries: Vec<(K, V, u64)>,
    ttl_nanos: u64,
}

impl<K: CacheKey, V: Clone> TtlCache<K, V> {
    /// Lifetime of an entry, in nanoseconds.
    pub closed spec fn ttl(&self) -> int {
        self.ttl_nanos as int
    }

    /// Well-formedness: no key is stored twice.
    pub closed spec fn wf(&self) -> bool {
        forall|i: int, j: int|
            0 <= i < self.entries.len() && 0 <= j < self.entries.len() && i != j
                ==> #[trigger] self.entries@[i].0@ != #[trigger] self.entries@[j].0@
    }

    /// The value stored under `k` in an entry list, and the time it was
    /// stored, if any.
    spec fn lookup_in(entries: Seq<(K, V, u64)>, k: K::V) -> Option<(V, u64)> {
        if exists|i: int| 0 <= i < entries.len() && #[trigger] entries[i].0@ == k {
            let i = choose|i: int| 0 <= i < entries.len() && #[trigger] entries[i].0@ == k;
            Some((entries[i].1, entries[i].2))
        } else {
            None
        }
    }

    /// The value stored under `k` and the time it was stored, if any.
    pub closed spec fn lookup(&self, k: K::V) -> Option<(V, u64)> {
        Self::lookup_in(self.entries@, k)
    }

    /// What a read of `k` at time `now` hands out: the stored value while it
    /// is fresh, nothing otherwise.
    pub open spec fn read(&self, k: K::V, now: u64) -> Option<V> {
        match self.lookup(k) {
            Some((v, t)) => if is_fresh(t as int, now as int, self.ttl()) {
                Some(v)
            } else {
                None
            },
            None => None,
        }
    }

    proof fn lemma_lookup_at(&self, i: int)
        requires
            self.wf(),
            0 <= i < self.entries.len(),
        ensures
            self.lookup(self.entries@[i].0@) == Some((self.entries@[i].1, self.entries@[i].2)),
    {
        let k = self.entries@[i].0@;
        assert(0 <= i < self.entries.len() && self.entries@[i].0@ == k);
        let j = choose|j: int| 0 <= j < self.entries.len() && #[trigger] self.entries@[j].0@ == k;
        if j != i {
            assert(self.entries@[i].0@ != self.entries@[j].0@);
        }
    }

    /// An empty cache whose entries live for `ttl_nanos` nanoseconds.
    pub fn new(ttl_nanos: u64) -> (c: Self)
        ensures
            c.wf(),
            c.ttl() == ttl_nanos,
            forall|k: K::V| #[trigger] c.lookup(k) is None,
    {
        TtlCache { entries: Vec::new(), ttl_nanos }
    }

    fn position(&self, key: &K) -> (r: Option<usize>)
        requires
            self.wf(),
        ensures
            r matches Some(i) ==> i < self.entries.len() && self.entries@[i as int].0@ == key@,
            r is None ==> forall|i: int|
                0 <= i < self.entries.len() ==> #[trigger] self.entries@[i].0@ != key@,
    {
        let mut i: usize = 0;
        while i < self.entries.len()
            invariant
                i <= self.entries.len(),
                forall|j: int| 0 <= j < i ==> #[trigger] self.entries@[j].0@ != key@,
            decreases self.entries.len() - i,
        {
            if self.entries[i].0.same_key(key) {
                return Some(i);
            }
            i = i + 1;
        }
        None
    }

    /// A copy of the value stored for `key` if one exists and has not
    /// expired at `now`.  An expired entry for `key` is removed.
    pub fn get(&mut self, key: &K, now: u64) -> (r: Option<V>)
        requires
            old(self).wf(),
        ensures
            final(self).wf(),
            final(self).ttl() == old(self).ttl(),
            r is Some <==> old(self).read(key@, now) is Some,
            r matches Some(x) ==> vstd::pervasive::cloned(old(self).read(key@, now)->0, x),
            final(self).lookup(key@) == (if r is Some {
                old(self).lookup(key@)
            } else {
                None
            }),
            forall|k: K::V| k != key@ ==> #[trigger] final(self).lookup(k) == old(self).lookup(k),
    {
        match self.position(key) {
            None => {
                proof {
                    assert(!exists|i: int|
                        0 <= i < self.entries.len() && #[trigger] self.entries@[i].0@ == key@);
                }
                None
            },
            Some(i) => {
                proof {
                    self.lemma_lookup_at(i as int);
                }
                let stored_at = self.entries[i].2;
                let age = if now >= stored_at {
                    now - stored_at
                } else {
                    0
                };
                if age < self.ttl_nanos {
                    Some(self.entries[i].1.clone())
                } else {
                    let ghost old_entries = self.entries@;
                    let _stale = self.entries.remove(i);
                    proof {
                        self.lemma_removed(old_entries, i as int, key@);
                    }
                    None
                }
            },
        }
    }

    /// After the entry at `i` (which holds `key`) is removed from a
    /// well-formed entry list, the list is still well formed, `key` is
    /// gone, and every other key maps as before.
    proof fn lemma_removed(&self, old_entries: Seq<(K, V, u64)>, i: int, key: K::V)
        requires
            0 <= i < old_entries.len(),
            old_entries[i].0@ == key,
            self.entries@ == old_entries.remove(i),
            forall|a: int, b: int|
                0 <= a < old_entries.len() && 0 <= b < old_entries.len() && a != b
                    ==> #[trigger] old_entries[a].0@ != #[trigger] old_entries[b].0@,
        ensures
            self.wf(),
            self.lookup(key) is None,
            forall|k: K::V| k != key ==> #[trigger] self.lookup(k) == Self::lookup_in(old_entries, k),
    {
        let n = self.entries@;
        assert forall|a: int| 0 <= a < n.len() implies #[trigger] n[a] == old_entries[if a < i {
            a
        } else {
            a + 1
        }] by {}
        assert forall|a: int, b: int|
            0 <= a < n.len() && 0 <= b < n.len() && a != b implies #[trigger] n[a].0@
            != #[trigger] n[b].0@ by {
            let oa = if a < i {
                a
            } else {
                a + 1
            };
            let ob = if b < i {
                b
            } else {
                b + 1
            };
            assert(n[a] == old_entries[oa]);
            assert(n[b] == old_entries[ob]);
            assert(old_entries[oa].0@ != old_entries[ob].0@);
        }
        assert forall|a: int| 0 <= a < n.len() implies #[trigger] n[a].0@ != key by {
            let oa = if a < i {
                a
            } else {
                a + 1
            };
            assert(n[a] == old_entries[oa]);
            assert(old_entries[oa].0@ != old_entries[i].0@);
        }
        assert forall|k: K::V| k != key implies #[trigger] self.lookup(k) == Self::lookup_in(old_entries, k) by {
            if exists|j: int| 0 <= j < old_entries.len() && #[trigger] old_entries[j].0@ == k {
                let j = choose|j: int| 0 <= j < old_entries.len() && #[trigger] old_entries[j].0@ == k;
                let nj = if j < i {
                    j
                } else {
                    j - 1
                };
                assert(j != i);
                assert(n[nj] == old_entries[j]);
                self.lemma_lookup_at(nj);
                assert(forall|b: int|
                    0 <= b < old_entries.len() && #[trigger] old_entries[b].0@ == k ==> b == j);
            } else {
                if exists|a: int| 0 <= a < n.len() && #[trigger] n[a].0@ == k {
                    let a = choose|a: int| 0 <= a < n.len() && #[trigger] n[a].0@ == k;
                    let oa = if a < i {
                        a
                    } else {
                        a + 1
                    };
                    assert(n[a] == old_entries[oa]);
                }
            }
        }
    }

    /// Insert or replace the value for `key`, stamping it with `now`.
    pub fn set(&mut self, key: K, value: V, now: u64)
        requires
            old(self).wf(),
        ensures
            final(self).wf(),
            final(self).ttl() == old(self).ttl(),
            final(self).lookup(key@) == Some((value, now)),
            forall|k: K::V| k != key@ ==> #[trigger] final(self).lookup(k) == old(self).lookup(k),
    {
        let ghost key_v = key@;
        match self.position(&key) {
            Some(i) => {
                let ghost old_entries = self.entries@;
                self.entries.set(i, (key, value, now));
                proof {
                    assert(self.entries@[i as int].0@ == key_v);
                    self.lemma_lookup_at(i as int);
                    assert forall|k: K::V| k != key_v implies #[trigger] self.lookup(k)
                        == old(self).lookup(k) by {
                        if exists|j: int| 0 <= j < old_entries.len() && #[trigger] old_entries[j].0@ == k {
                            let j = choose|j: int| 0 <= j < old_entries.len() && #[trigger] old_entries[j].0@ == k;
                            assert(j != i);
                            assert(self.entries@[j] == old_entries[j]);
                            self.lemma_lookup_at(j);
                            old(self).lemma_lookup_at(j);
                        } else {
                            if exists|j: int| 0 <= j < self.entries.len() && #[trigger] self.entries@[j].0@ == k {
                                let j = choose|j: int| 0 <= j < self.entries.len() && #[trigger] self.entries@[j].0@ == k;
                                assert(j != i);
                                assert(old_entries[j] == self.entries@[j]);
                            }
                        }
                    }
                }
            },
            None => {
                let ghost old_entries = self.entries@;
                self.entries.push((key, value, now));
                proof {
                    let n = old_entries.len() as int;
                    assert(self.entries@[n].0@ == key_v);
                    self.lemma_lookup_at(n);
                    assert forall|k: K::V| k != key_v implies #[trigger] self.lookup(k)
                        == old(self).lookup(k) by {
                        if exists|j: int| 0 <= j < old_entries.len() && #[trigger] old_entries[j].0@ == k {
                            let j = choose|j: int| 0 <= j < old_entries.len() && #[trigger] old_entries[j].0@ == k;
                            assert(self.entries@[j] == old_entries[j]);
                            self.lemma_lookup_at(j);
                            old(self).lemma_lookup_at(j);
                        } else {
                            if exists|j: int| 0 <= j < self.entries.len() && #[trigger] self.entries@[j].0@ == k {
                                let j = choose|j: int| 0 <= j < self.entries.len() && #[trigger] self.entries@[j].0@ == k;
                                assert(j != n);
                                assert(old_entries[j] == self.entries@[j]);
                            }
                        }
                    }
                }
            },
        }
    }
}

/// Read after write: once `key` has been set to `value` at `stored_at`
/// (as [`TtlCache::set`] ensures), a read of `key` hands out `value` exactly
/// while less than the TTL has elapsed since `stored_at`, and reads of every
/// other key are as before the write.
pub proof fn lemma_read_after_write<K: CacheKey, V: Clone>(
    before: TtlCache<K, V>,
    after: TtlCache<K, V>,
    key: K,
    value: V,
    stored_at: u64,
)
    requires
        after.ttl() == before.ttl(),
        after.lookup(key@) == Some((value, stored_at)),
        forall|k: K::V| k != key@ ==> #[trigger] after.lookup(k) == before.lookup(k),
    ensures
        forall|now: u64|
            #[trigger] after.read(key@, now) == (if elapsed(stored_at as int, now as int)
                < before.ttl() {
                Some(value)
            } else {
                None
            }),
        forall|k: K::V, now: u64| k != key@ ==> #[trigger] after.read(k, now) == before.read(k, now),
{
}

/// Expiry is permanent: an entry that is stale at some time stays stale at
/// every later time (for a clock that reads at least the storing time).
pub proof fn lemma_expiry_is_permanent(stored_at: int, now1: int, now2: int, ttl: int)
    requires
        stored_at <= now1 <= now2,
        !is_fresh(stored_at, now1, ttl),
    ensures
        !is_fresh(stored_at, now2, ttl),
{
}

// ---------------------------------------------------------------------------
// Composed query cache
// ---------------------------------------------------------------------------

/// Nanoseconds per second.
pub const NANOS_PER_SEC: u64 = 1_000_000_000;

/// Shared cache for all database queries.  `C` is the public configuration
/// type, `M` the map-spot list type and `W` the full spot list type.
pub struct QueryCache<C, M, W> {
    /// Public configuration; key `()`; TTL 5 minutes.
    pub config: TtlCache<(), C>,
    /// Statistics; key `(since, until)` rounded to the minute; TTL 60 s.
    pub stats: TtlCache<(i64, i64), SpotStats>,
    /// Map spots; key the normalised filter; TTL 60 s.
    pub map_spots: TtlCache<SpotFilter, M>,
    /// Full spot records; key the normalised filter; TTL 60 s.
    pub spots: TtlCache<SpotFilter, W>,
}

/// The largest multiple of 60 that is at most `ts`.
pub open spec fn round_down_to_minute(ts: int) -> int {
    ts - ts % 60
}

/// True when rounding `ts` down to the minute stays within `i64`.
pub open spec fn roundable(ts: int) -> bool {
    round_down_to_minute(ts) >= i64::MIN
}

/// The cache key of a filter: the filter with its window start resolved to
/// `default_since` when absent and both window ends rounded down to the
/// minute.
pub open spec fn normalized_key(f: SpotFilterView, default_since: i64) -> SpotFilterView {
    SpotFilterView {
        since_unix: Some(
            round_down_to_minute(
                match f.since_unix {
                    Some(s) => s as int,
                    None => default_since as int,
                },
            ) as i64,
        ),
        until_unix: match f.until_unix {
            Some(u) => Some(round_down_to_minute(u as int) as i64),
            None => None,
        },
        ..f
    }
}

impl<C: Clone, M: Clone, W: Clone> Default for QueryCache<C, M, W> {
    /// The same as [`QueryCache::new`]: empty caches with the default TTLs.
    fn default() -> (c: Self)
        ensures
            c.config.wf() && c.stats.wf() && c.map_spots.wf() && c.spots.wf(),
            c.config.ttl() == 300 * NANOS_PER_SEC,
            c.stats.ttl() == 60 * NANOS_PER_SEC,
            c.map_spots.ttl() == 60 * NANOS_PER_SEC,
            c.spots.ttl() == 60 * NANOS_PER_SEC,
            forall|k: ()| #[trigger] c.config.lookup(k) is None,
            forall|k: (i64, i64)| #[trigger] c.stats.lookup(k) is None,
            forall|k: SpotFilterView| #[trigger] c.map_spots.lookup(k) is None,
            forall|k: SpotFilterView| #[trigger] c.spots.lookup(k) is None,
    {
        Self::new()
    }
}

impl<C: Clone, M: Clone, W: Clone> QueryCache<C, M, W> {
    /// A new cache: configuration entries live 5 minutes, all others 60 s.
    pub fn new() -> (c: Self)
        ensures
            c.config.wf() && c.stats.wf() && c.map_spots.wf() && c.spots.wf(),
            c.config.ttl() == 300 * NANOS_PER_SEC,
            c.stats.ttl() == 60 * NANOS_PER_SEC,
            c.map_spots.ttl() == 60 * NANOS_PER_SEC,
            c.spots.ttl() == 60 * NANOS_PER_SEC,
            forall|k: ()| #[trigger] c.config.lookup(k) is None,
            forall|k: (i64, i64)| #[trigger] c.stats.lookup(k) is None,
            forall|k: SpotFilterView| #[trigger] c.map_spots.lookup(k) is None,
            forall|k: SpotFilterView| #[trigger] c.spots.lookup(k) is None,
    {
        QueryCache {
            config: TtlCache::new(300 * NANOS_PER_SEC),
            stats: TtlCache::new(60 * NANOS_PER_SEC),
            map_spots: TtlCache::new(60 * NANOS_PER_SEC),
            spots: TtlCache::new(60 * NANOS_PER_SEC),
        }
    }

    /// Round a Unix timestamp down to the nearest 60-second boundary, so
    /// that all requests within the same minute share a cache entry.
    pub fn round_ts(ts: i64) -> (r: i64)
        requires
            roundable(ts as int),
        ensures
            r == round_down_to_minute(ts as int),
            r <= ts < r + 60,
            r % 60 == 0,
    {
        let m = ts % 60;
        if m < 0 {
            ts - m - 60
        } else {
            ts - m
        }
    }

    /// A copy of `filter` suitable as a cache key: an absent window start is
    /// resolved to `default_since`, and both window ends are rounded down to
    /// the minute.
    pub fn normalize_filter_key(filter: &SpotFilter, default_since: i64) -> (k: SpotFilter)
        requires
            roundable(
                match filter.since_unix {
                    Some(s) => s as int,
                    None => default_since as int,
                },
            ),
            filter.until_unix matches Some(u) ==> roundable(u as int),
        ensures
            k@ == normalized_key(filter@, default_since),
    {
        let since = match filter.since_unix {
            Some(s) => s,
            None => default_since,
        };
        let until = match filter.until_unix {
            Some(u) => Some(Self::round_ts(u)),
            None => None,
        };
        SpotFilter {
            source: filter.source,
            callsign: clone_opt_string(&filter.callsign),
            reporter: clone_opt_string(&filter.reporter),
            grid: clone_opt_string(&filter.grid),
            band_hz: filter.band_hz,
            snr_min: filter.snr_min,
            power_max: filter.power_max,
            since_unix: Some(Self::round_ts(since)),
            until_unix: until,
            limit: filter.limit,
            offset: filter.offset,
            grid_only: filter.grid_only,
        }
    }
}

/// Requests within the same minute share a cache entry: two timestamps in
/// the same 60-second interval round to the same key.
pub proof fn lemma_same_minute_same_key(a: int, b: int)
    requires
        a / 60 == b / 60,
    ensures
        round_down_to_minute(a) == round_down_to_minute(b),
{
}

/// Normalising a filter into a cache key changes only its window: every
/// other field (source, text filters, band, SNR, power, paging, grid-only)
/// is kept, so two filters that differ in any of those never share a key.
/// The window start becomes the filter's start (or `default_since`) rounded
/// down to the minute, and an end, if any, is rounded down to the minute.
pub proof fn lemma_normalize_changes_only_window(f: SpotFilterView, g: SpotFilterView, d: i64)
    ensures
        normalized_key(f, d).source == f.source,
        normalized_key(f, d).callsign == f.callsign,
        normalized_key(f, d).reporter == f.reporter,
        normalized_key(f, d).grid == f.grid,
        normalized_key(f, d).band_hz == f.band_hz,
        normalized_key(f, d).snr_min == f.snr_min,
        normalized_key(f, d).power_max == f.power_max,
        normalized_key(f, d).limit == f.limit,
        normalized_key(f, d).offset == f.offset,
        normalized_key(f, d).grid_only == f.grid_only,
        normalized_key(f, d).since_unix == Some(
            (match f.since_unix {
                Some(s) => s as int - (s as int) % 60,
                None => d as int - (d as int) % 60,
            }) as i64,
        ),
        normalized_key(f, d).until_unix == match f.until_unix {
            Some(u) => Some((u as int - (u as int) % 60) as i64),
            None => None,
        },
        normalized_key(f, d) == normalized_key(g, d) ==> f.band_hz == g.band_hz && f.source
            == g.source && f.callsign == g.callsign && f.reporter == g.reporter && f.grid == g.grid
            && f.snr_min == g.snr_min && f.power_max == g.power_max && f.limit == g.limit
            && f.offset == g.offset && f.grid_only == g.grid_only,
{
}

/// Normalising a key twice gives the same key as normalising it once, so a
/// normalised key is a fixed point of the cache's key mapping.
pub proof fn lemma_normalize_idempotent(f: SpotFilterView, d1: i64, d2: i64)
    requires
        roundable(
            match f.since_unix {
                Some(s) => s as int,
                None => d1 as int,
            },
        ),
        f.until_unix matches Some(u) ==> roundable(u as int),
    ensures
        normalized_key(normalized_key(f, d1), d2) == normalized_key(f, d1),
{
    let s = match f.since_unix {
        Some(s) => s as int,
        None => d1 as int,
    };
    let r = round_down_to_minute(s);
    assert(round_down_to_minute(r) == r);
    if let Some(u) = f.until_unix {
        let ru = round_down_to_minute(u as int);
        assert(round_down_to_minute(ru) == ru);
    }
}

} // verus!
