use wsprrs_web::cache::{QueryCache, TtlCache};
use wsprrs_web::models::filter::{SpotFilter, SpotSource};
use wsprrs_web::models::spot::SpotStats;

type Cache = QueryCache<String, Vec<u32>, Vec<u8>>;

const SEC: u64 = 1_000_000_000;

#[test]
fn value_is_returned_until_ttl() {
    let mut c: TtlCache<i64, String> = TtlCache::new(60 * SEC);
    assert_eq!(c.get(&1, 0), None);
    c.set(1, "a".to_string(), 10 * SEC);
    assert_eq!(c.get(&1, 10 * SEC), Some("a".to_string()));
    assert_eq!(c.get(&1, 69 * SEC), Some("a".to_string()));
    assert_eq!(c.get(&1, 70 * SEC - 1), Some("a".to_string()));
    // A clock reading before the store counts as no time elapsed.
    assert_eq!(c.get(&1, 0), Some("a".to_string()));
    assert_eq!(c.get(&1, 70 * SEC), None);
    assert_eq!(c.get(&1, 1000 * SEC), None);
    assert_eq!(c.get(&2, 10 * SEC), None);
}

#[test]
fn expired_entry_is_evicted_on_read() {
    let mut c: TtlCache<i64, String> = TtlCache::new(60 * SEC);
    c.set(1, "a".to_string(), 0);
    c.set(2, "b".to_string(), 30 * SEC);
    // Entry 1 is stale at 60 s: the read returns nothing and removes it, so
    // even an earlier clock reading no longer finds it.
    assert_eq!(c.get(&1, 60 * SEC), None);
    assert_eq!(c.get(&1, 0), None);
    // Entry 2 is untouched.
    assert_eq!(c.get(&2, 60 * SEC), Some("b".to_string()));
    // A fresh read keeps the entry.
    assert_eq!(c.get(&2, 30 * SEC), Some("b".to_string()));
}

#[test]
fn set_replaces_and_resets_timer() {
    let mut c: TtlCache<(i64, i64), u32> = TtlCache::new(5);
    c.set((1, 2), 7, 0);
    c.set((3, 4), 8, 0);
    c.set((1, 2), 9, 10);
    assert_eq!(c.get(&(1, 2), 12), Some(9));
    assert_eq!(c.get(&(3, 4), 4), Some(8));
    assert_eq!(c.get(&(3, 4), 12), None);
    // The expired read evicted the entry.
    assert_eq!(c.get(&(3, 4), 4), None);
}

#[test]
fn filter_keys_compare_by_content() {
    let mut c: TtlCache<SpotFilter, u8> = TtlCache::new(SEC);
    let a = SpotFilter { callsign: Some("K1".to_string()), ..SpotFilter::default() };
    c.set(a.clone(), 1, 0);
    let same = SpotFilter { callsign: Some("K1".to_string()), ..SpotFilter::default() };
    let other = SpotFilter { source: SpotSource::Global, ..same.clone() };
    assert_eq!(c.get(&same, 1), Some(1));
    assert_eq!(c.get(&other, 1), None);
}

#[test]
fn query_cache_ttls() {
    let mut q = Cache::new();
    q.config.set((), "cfg".to_string(), 0);
    q.stats.set((0, 60), SpotStats { total_spots: 1, unique_callsigns: 1, unique_grids: 1, oldest_unix: 0, newest_unix: 0 }, 0);
    assert_eq!(q.config.get(&(), 299 * SEC), Some("cfg".to_string()));
    assert_eq!(q.config.get(&(), 300 * SEC), None);
    assert!(q.stats.get(&(0, 60), 59 * SEC).is_some());
    assert!(q.stats.get(&(0, 60), 60 * SEC).is_none());
    assert!(q.map_spots.get(&SpotFilter::default(), 0).is_none());
    assert!(q.spots.get(&SpotFilter::default(), 0).is_none());
}

#[test]
fn round_ts_rounds_down() {
    assert_eq!(Cache::round_ts(0), 0);
    assert_eq!(Cache::round_ts(59), 0);
    assert_eq!(Cache::round_ts(60), 60);
    assert_eq!(Cache::round_ts(1_700_000_123), 1_700_000_100);
    assert_eq!(Cache::round_ts(-1), -60);
    assert_eq!(Cache::round_ts(-60), -60);
    assert_eq!(Cache::round_ts(i64::MAX), i64::MAX - 7);
}

#[test]
fn normalized_key_resolves_and_rounds() {
    let f = SpotFilter {
        source: SpotSource::Global,
        reporter: Some("W3POG".to_string()),
        until_unix: Some(1_000_019),
        ..SpotFilter::default()
    };
    let k = Cache::normalize_filter_key(&f, 1_000_005);
    assert_eq!(k.since_unix, Some(999_960));
    assert_eq!(k.until_unix, Some(999_960));
    assert_eq!(k.source, SpotSource::Global);
    assert_eq!(k.reporter, Some("W3POG".to_string()));
    let again = Cache::normalize_filter_key(&k, 0);
    assert_eq!(again, k);
    let g = SpotFilter { since_unix: Some(121), ..SpotFilter::default() };
    assert_eq!(Cache::normalize_filter_key(&g, 0).since_unix, Some(120));
    assert_eq!(Cache::normalize_filter_key(&g, 0).until_unix, None);
}

#[test]
fn default_cache_is_empty_with_default_ttls() {
    let mut c: Cache = QueryCache::default();
    assert_eq!(c.config.get(&(), 0), None);
    assert_eq!(c.stats.get(&(0, 60), 0), None);
    c.config.set((), "cfg".to_string(), 0);
    assert_eq!(c.config.get(&(), 300 * SEC - 1), Some("cfg".to_string()));
    assert_eq!(c.config.get(&(), 300 * SEC), None);
}
