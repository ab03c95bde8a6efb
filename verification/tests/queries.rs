use wsprrs_web::db::queries::{
    append_ignore_callsigns, append_shared_filters, band_counts_from_rows, band_counts_sql,
    callsign_suggestions_sql, map_spots_sql, new_spots_sql, parse_exclude_prefix,
    sanitise_callsign, sanitise_locator, spots_sql, stats_sql, FreqCount,
};
use wsprrs_web::models::filter::SpotFilter;

#[test]
fn sanitise_callsign_keeps_alnum_and_slash() {
    assert_eq!(sanitise_callsign("K1ABC/P"), "K1ABC/P");
    assert_eq!(sanitise_callsign("K1'; DROP TABLE x;--"), "K1DROPTABLEx");
    assert_eq!(sanitise_callsign("ABCDEFGHIJKLMNOPQRSTUVWXYZ"), "ABCDEFGHIJKLMNOPQRST");
    assert_eq!(sanitise_callsign("é"), "");
}

#[test]
fn sanitise_locator_keeps_six_alnum() {
    assert_eq!(sanitise_locator("FN20eg12"), "FN20eg");
    assert_eq!(sanitise_locator("F-N'2 0"), "FN20");
    assert_eq!(sanitise_locator("/"), "");
}

#[test]
fn exclude_prefix_strips_one_bang() {
    assert_eq!(parse_exclude_prefix("!K1ABC"), (true, "K1ABC"));
    assert_eq!(parse_exclude_prefix("K1ABC"), (false, "K1ABC"));
    assert_eq!(parse_exclude_prefix("!!X"), (true, "!X"));
    assert_eq!(parse_exclude_prefix(""), (false, ""));
}

#[test]
fn ignore_clause_lists_sanitised_callsigns() {
    let mut sql = String::from("X");
    append_ignore_callsigns(&mut sql, &[]);
    assert_eq!(sql, "X");
    append_ignore_callsigns(&mut sql, &["W3POG".to_string(), "N0'CALL".to_string()]);
    assert_eq!(sql, "X AND upper(callsign) NOT IN ('W3POG', 'N0CALL')");
    // Ignored callsigns are compared upper-cased, whatever case they came in.
    let mut sql = String::from("X");
    append_ignore_callsigns(&mut sql, &["w3pog".to_string(), "k1Ab/p".to_string()]);
    assert_eq!(sql, "X AND upper(callsign) NOT IN ('W3POG', 'K1AB/P')");
}

#[test]
fn shared_filters_all_clauses() {
    let f = SpotFilter {
        callsign: Some("!k1abc".to_string()),
        grid: Some("fn20".to_string()),
        band_hz: Some(14_095_600),
        snr_min: Some(-20),
        power_max: Some(37),
        ..SpotFilter::default()
    };
    let mut sql = String::new();
    append_shared_filters(&mut sql, &f);
    assert_eq!(
        sql,
        " AND upper(callsign) NOT LIKE upper('k1abc%') AND upper(grid) LIKE 'FN20%' \
         AND abs(freq_hz - 14095600) < 10000 AND snr_db >= -20 AND power_dbm <= 37"
    );
}

#[test]
fn shared_filters_skip_empty_values() {
    let f = SpotFilter {
        callsign: Some("!".to_string()),
        grid: Some("!!!".to_string()),
        ..SpotFilter::default()
    };
    let mut sql = String::new();
    append_shared_filters(&mut sql, &f);
    assert_eq!(sql, "");
}

#[test]
fn map_spots_query_text() {
    let f = SpotFilter { limit: Some(100), ..SpotFilter::default() };
    let sql = map_spots_sql(&f, "wspr_spots", 1_700_000_000, &[], 5000);
    assert_eq!(
        sql,
        "SELECT window_start_unix, callsign, grid, freq_hz, snr_db, power_dbm FROM wspr_spots \
         WHERE grid != '' AND window_start_unix >= 1700000000 AND window_start_unix <= \
         9223372036854775807 ORDER BY window_start_unix DESC LIMIT 100"
    );
}

#[test]
fn limit_is_capped_by_server() {
    let f = SpotFilter { limit: Some(100_000), since_unix: Some(5), until_unix: Some(-6), ..SpotFilter::default() };
    let sql = map_spots_sql(&f, "t", 0, &["AB1".to_string()], 5000);
    assert_eq!(
        sql,
        "SELECT window_start_unix, callsign, grid, freq_hz, snr_db, power_dbm FROM t \
         WHERE grid != '' AND window_start_unix >= 5 AND window_start_unix <= -6 \
         AND upper(callsign) NOT IN ('AB1') ORDER BY window_start_unix DESC LIMIT 5000"
    );
    let none = SpotFilter { limit: None, ..SpotFilter::default() };
    assert!(map_spots_sql(&none, "t", 0, &[], 77).ends_with("LIMIT 77"));
}

#[test]
fn spots_query_text() {
    let f = SpotFilter { grid_only: Some(true), offset: Some(40), ..SpotFilter::default() };
    let sql = spots_sql(&f, "db.t", 10, &[], 50);
    assert_eq!(
        sql,
        "SELECT window_start_unix, time_utc, snr_db, dt_sec, freq_hz, message, callsign, grid, \
         power_dbm, drift, sync_quality, npass, osd_pass, nhardmin, decode_cycles, candidates, \
         nfano FROM db.t WHERE window_start_unix >= 10 AND window_start_unix <= \
         9223372036854775807 AND grid != '' ORDER BY window_start_unix DESC LIMIT 50 OFFSET 40"
    );
    let g = SpotFilter { grid_only: None, offset: None, ..SpotFilter::default() };
    assert!(spots_sql(&g, "t", 0, &[], 5).ends_with("<= 9223372036854775807 ORDER BY window_start_unix DESC LIMIT 5 OFFSET 0"));
}

#[test]
fn stats_query_text() {
    let sql = stats_sql("t", -100, 200, &["X".to_string()]);
    assert_eq!(
        sql,
        "SELECT count()                         AS total_spots, uniqExact(callsign)             \
         AS unique_callsigns, uniqExactIf(grid, grid != '')   AS unique_grids, \
         min(window_start_unix)          AS oldest_unix, max(window_start_unix)          AS \
         newest_unix FROM t WHERE window_start_unix >= -100 AND window_start_unix <= 200 AND \
         upper(callsign) NOT IN ('X')"
    );
}

#[test]
fn band_counts_query_text() {
    assert_eq!(
        band_counts_sql("t", 123, &[]),
        "SELECT toFloat64(round(freq_hz / 1000) * 1000) AS freq_hz, count() AS cnt FROM t \
         WHERE window_start_unix >= 123 GROUP BY freq_hz ORDER BY freq_hz"
    );
}

#[test]
fn suggestions_query_text() {
    assert_eq!(
        callsign_suggestions_sql("t", "k1a", &[]).unwrap(),
        "SELECT DISTINCT callsign FROM t WHERE upper(callsign) LIKE 'K1A%' ORDER BY callsign LIMIT 20"
    );
    assert!(callsign_suggestions_sql("t", "'%", &[]).is_none());
}

#[test]
fn new_spots_query_text() {
    assert_eq!(
        new_spots_sql("t", 1000, &["Q".to_string(), "R".to_string()], 500),
        "SELECT window_start_unix, callsign, grid, freq_hz, snr_db, power_dbm FROM t WHERE \
         grid != '' AND window_start_unix > 1000 AND upper(callsign) NOT IN ('Q', 'R') \
         ORDER BY window_start_unix DESC LIMIT 500"
    );
}

#[test]
fn new_spots_query_is_capped_at_500() {
    assert!(new_spots_sql("t", 0, &[], 5000).ends_with(" LIMIT 500"));
    assert!(new_spots_sql("t", 0, &[], 501).ends_with(" LIMIT 500"));
    assert!(new_spots_sql("t", 0, &[], 499).ends_with(" LIMIT 499"));
    assert!(new_spots_sql("t", 0, &[], 0).ends_with(" LIMIT 0"));
}

#[test]
fn band_counts_accumulate_in_band_order() {
    let rows = [
        FreqCount { freq_hz: 14_096_000, cnt: 5 },
        FreqCount { freq_hz: 7_039_000, cnt: 2 },
        FreqCount { freq_hz: 14_097_000, cnt: 3 },
        FreqCount { freq_hz: 100_000_000, cnt: 99 },
    ];
    let out = band_counts_from_rows(&rows);
    assert_eq!(out.len(), 2);
    assert_eq!((out[0].name.as_str(), out[0].spot_count, out[0].dial_hz), ("40m", 2, 7_038_600));
    assert_eq!((out[1].name.as_str(), out[1].spot_count), ("20m", 8));
    assert_eq!(out[1].color, "#961AFF");
    assert!(band_counts_from_rows(&[]).is_empty());
}
