use wsprrs_web::models::filter::{SpotFilter, SpotSource};
use wsprrs_web::models::spot::{band_info_for, bands_without_counts, palette_with_counts, stats_from_rows, BandInfo, SpotStats, SpotStatsRow};

#[test]
fn stats_from_first_row_or_zero() {
    let zero = SpotStats { total_spots: 0, unique_callsigns: 0, unique_grids: 0, oldest_unix: 0, newest_unix: 0 };
    assert_eq!(stats_from_rows(&vec![]), zero);
    let r = SpotStatsRow { total_spots: 10, unique_callsigns: 4, unique_grids: 3, oldest_unix: 100, newest_unix: 200 };
    let s = stats_from_rows(&vec![r, SpotStatsRow { total_spots: 1, ..r }]);
    assert_eq!(s, SpotStats { total_spots: 10, unique_callsigns: 4, unique_grids: 3, oldest_unix: 100, newest_unix: 200 });
    assert_eq!(SpotStats::from(r), s);
}

#[test]
fn palette_without_counts() {
    let bands = bands_without_counts();
    assert_eq!(bands.len(), 17);
    assert!(bands.iter().all(|b| b.spot_count == 0));
    assert_eq!(bands[0].name, "2200m");
    assert_eq!(bands[16].dial_hz, 1_296_500_000);
}

#[test]
fn band_info_fallback() {
    assert_eq!(band_info_for(14_095_800), ("20m".to_string(), "#961AFF".to_string()));
    assert_eq!(band_info_for(1), ("unknown".to_string(), "#808080".to_string()));
}

#[test]
fn default_filter_values() {
    let f = SpotFilter::default();
    assert_eq!(f.source, SpotSource::Local);
    assert_eq!(SpotSource::default(), SpotSource::Local);
    assert_eq!(f.limit, None);
    assert_eq!(f.offset, Some(0));
    assert_eq!(f.grid_only, Some(false));
    assert!(f.callsign.is_none() && f.reporter.is_none() && f.grid.is_none());
    assert!(f.since_unix.is_none() && f.until_unix.is_none() && f.band_hz.is_none());
    assert!(f.same_as(&f.duplicate()));
}

#[test]
fn palette_keeps_every_band_with_its_count() {
    let counted = vec![
        BandInfo { name: "20m".to_string(), dial_hz: 14_095_600, color: "x".to_string(), spot_count: 7 },
        BandInfo { name: "40m".to_string(), dial_hz: 7_038_600, color: "y".to_string(), spot_count: 3 },
    ];
    let bands = palette_with_counts(&counted);
    assert_eq!(bands.len(), 17);
    assert_eq!(bands[0].name, "2200m");
    assert_eq!(bands[0].spot_count, 0);
    assert_eq!(bands[5].name, "40m");
    assert_eq!(bands[5].spot_count, 3);
    assert_eq!(bands[7].name, "20m");
    assert_eq!(bands[7].spot_count, 7);
    // Names and colours come from the band table, not from the counts.
    assert_eq!(bands[7].color, "#961AFF");
    assert_eq!(palette_with_counts(&[]).iter().map(|b| b.spot_count).sum::<u64>(), 0);
}
