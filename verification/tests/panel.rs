use wsprrs_web::models::filter::{SpotFilter, SpotSource};
use wsprrs_web::panel::{FilterEvent, FilterPanel, DEFAULT_WINDOW_SECS_FALLBACK};

const NOW: i64 = 1_700_000_000;

fn s(x: &str) -> String {
    x.to_string()
}

#[test]
fn panel_starts_with_defaults() {
    let p = FilterPanel::new();
    assert_eq!(p.filter, SpotFilter::default());
    assert_eq!(p.window_secs, DEFAULT_WINDOW_SECS_FALLBACK);
    assert!(!p.config_applied);
    assert_eq!(p.snr_slider_value(), -30);
}

#[test]
fn config_window_applied_once() {
    let p = FilterPanel::new().apply(FilterEvent::ConfigResolved(86_400), NOW);
    assert!(p.config_applied);
    assert_eq!(p.window_secs, 86_400);
    assert_eq!(p.filter.since_unix, Some(NOW - 86_400));
    assert_eq!(p.filter.until_unix, None);
    let q = p.apply(FilterEvent::ConfigResolved(3_600), NOW + 5);
    assert_eq!(q.window_secs, 86_400);
    assert_eq!(q.filter.since_unix, Some(NOW - 86_400));
}

#[test]
fn text_inputs() {
    let p = FilterPanel::new()
        .apply(FilterEvent::CallsignInput(s("K1ABC")), NOW)
        .apply(FilterEvent::GridInput(s("fn20")), NOW)
        .apply(FilterEvent::SourceGlobal, NOW)
        .apply(FilterEvent::ReporterInput(s("!W3POG")), NOW);
    assert_eq!(p.filter.callsign, Some(s("K1ABC")));
    assert_eq!(p.filter.grid, Some(s("FN20")));
    assert_eq!(p.filter.source, SpotSource::Global);
    assert_eq!(p.filter.reporter, Some(s("!W3POG")));
    assert_eq!(p.reporter_prefix, "W3POG");
    let q = p.apply(FilterEvent::CallsignInput(s("")), NOW).apply(FilterEvent::SourceLocal, NOW);
    assert_eq!(q.filter.callsign, None);
    assert_eq!(q.filter.reporter, None);
    assert_eq!(q.reporter_prefix, "");
    assert_eq!(q.filter.source, SpotSource::Local);
}

#[test]
fn selectors_and_slider() {
    let p = FilterPanel::new()
        .apply(FilterEvent::BandChange(s("14095600")), NOW)
        .apply(FilterEvent::SnrInput(s("-12")), NOW)
        .apply(FilterEvent::WindowChange(s("7200")), NOW)
        .apply(FilterEvent::GridOnlyChange(true), NOW);
    assert_eq!(p.filter.band_hz, Some(14_095_600));
    assert_eq!(p.filter.snr_min, Some(-12));
    assert_eq!(p.snr_slider_value(), -12);
    assert_eq!(p.window_secs, 7200);
    assert_eq!(p.filter.since_unix, Some(NOW - 7200));
    assert_eq!(p.filter.grid_only, Some(true));
    let q = p
        .apply(FilterEvent::BandChange(s("")), NOW)
        .apply(FilterEvent::SnrInput(s("-30")), NOW)
        .apply(FilterEvent::SnrInput(s("abc")), NOW)
        .apply(FilterEvent::WindowChange(s("x")), NOW);
    assert_eq!(q.filter.band_hz, None);
    assert_eq!(q.filter.snr_min, None);
    assert_eq!(q.window_secs, 7200);
}

#[test]
fn reset_restores_default_filter() {
    let p = FilterPanel::new()
        .apply(FilterEvent::CallsignInput(s("K1")), NOW)
        .apply(FilterEvent::ReporterInput(s("W3")), NOW)
        .apply(FilterEvent::Reset(Some(43_200)), NOW);
    let expected = SpotFilter { since_unix: Some(NOW - 43_200), ..SpotFilter::default() };
    assert_eq!(p.filter, expected);
    assert_eq!(p.window_secs, 43_200);
    assert_eq!(p.reporter_prefix, "");
    let q = p.apply(FilterEvent::Reset(None), NOW);
    assert_eq!(q.window_secs, 3_600);
    assert_eq!(q.filter.since_unix, Some(NOW - 3_600));
}
