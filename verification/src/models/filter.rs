//! The query filter that every spot-fetching request carries.
use vstd::prelude::*;

verus! {

/// Whether to query personal receive data or the global WSPR spot network.
#[derive(Debug, Clone, Copy, PartialEq, Eq, Structural, Hash)]
pub enum SpotSource {
    /// Personal receiver data from the `wspr_spots` table.
    Local,
    /// Worldwide spot data from the `global_spots` table.
    Global,
}

impl Default for SpotSource {
    /// `Local`, so that callers see personal data without extra configuration.
    fn default() -> (s: Self)
        ensures
            s == SpotSource::Local,
    {
        SpotSource::Local
    }
}

/// Query filter passed to all spot-fetching requests.  Missing values mean
/// "no constraint".
#[derive(Debug, Clone, PartialEq, Eq, Hash)]
pub struct SpotFilter {
    /// Data source: personal receive data or the global network.
    pub source: SpotSource,
    /// Callsign prefix (case-insensitive); a leading `!` negates the match.
    pub callsign: Option<String>,
    /// Reporter callsign (global mode only); a leading `!` negates the match.
    pub reporter: Option<String>,
    /// Grid prefix, e.g. `"FN20"` matches `"FN20"` and `"FN20eg"`.
    pub grid: Option<String>,
    /// Nominal dial frequency in Hz of the desired band.
    pub band_hz: Option<u64>,
    /// Minimum SNR in dB (inclusive).
    pub snr_min: Option<i32>,
    /// Maximum transmitted power in dBm (inclusive).
    pub power_max: Option<i32>,
    /// Start of the time window, Unix seconds.
    pub since_unix: Option<i64>,
    /// End of the time window, Unix seconds.
    pub until_unix: Option<i64>,
    /// Maximum rows to return; `None` defers to the server's cap.
    pub limit: Option<u32>,
    /// Row offset for pagination.
    pub offset: Option<u32>,
    /// When `true`, exclude spots with an empty grid field.
    pub grid_only: Option<bool>,
}

/// Mathematical value of a [`SpotFilter`]: strings as character sequences.
pub struct SpotFilterView {
    pub source: SpotSource,
    pub callsign: Option<Seq<char>>,
    pub reporter: Option<Seq<char>>,
    pub grid: Option<Seq<char>>,
    pub band_hz: Option<u64>,
    pub snr_min: Option<i32>,
    pub power_max: Option<i32>,
    pub since_unix: Option<i64>,
    pub until_unix: Option<i64>,
    pub limit: Option<u32>,
    pub offset: Option<u32>,
    pub grid_only: Option<bool>,
}

/// The characters of an optional string.
pub open spec fn opt_str_view(o: Option<String>) -> Option<Seq<char>> {
    match o {
        Some(s) => Some(s@),
        None => None,
    }
}

impl View for SpotFilter {
    type V = SpotFilterView;

    open spec fn view(&self) -> SpotFilterView {
        SpotFilterView {
            source: self.source,
            callsign: opt_str_view(self.callsign),
            reporter: opt_str_view(self.reporter),
            grid: opt_str_view(self.grid),
            band_hz: self.band_hz,
            snr_min: self.snr_min,
            power_max: self.power_max,
            since_unix: self.since_unix,
            until_unix: self.until_unix,
            limit: self.limit,
            offset: self.offset,
            grid_only: self.grid_only,
        }
    }
}

/// The default filter: local source, no constraints, offset 0, all spots
/// (not only those with a grid).
pub open spec fn default_filter_view() -> SpotFilterView {
    SpotFilterView {
        source: SpotSource::Local,
        callsign: None,
        reporter: None,
        grid: None,
        band_hz: None,
        snr_min: None,
        power_max: None,
        since_unix: None,
        until_unix: None,
        limit: None,
        offset: Some(0),
        grid_only: Some(false),
    }
}

impl Default for SpotFilter {
    /// Local source, no constraints; `limit: None` defers to the
    /// server-configured cap.
    fn default() -> (f: Self)
        ensures
            f@ == default_filter_view(),
    {
        SpotFilter {
            source: SpotSource::Local,
            callsign: None,
            reporter: None,
            grid: None,
            band_hz: None,
            snr_min: None,
            power_max: None,
            since_unix: None,
            until_unix: None,
            limit: None,
            offset: Some(0),
            grid_only: Some(false),
        }
    }
}

/// A copy of an optional string.
pub fn clone_opt_string(o: &Option<String>) -> (r: Option<String>)
    ensures
        opt_str_view(r) == opt_str_view(*o),
{
    match o {
        Some(s) => Some(s.clone()),
        None => None,
    }
}

/// Equality of optional strings by content.
pub fn opt_string_eq(a: &Option<String>, b: &Option<String>) -> (r: bool)
    ensures
        r == (opt_str_view(*a) == opt_str_view(*b)),
{
    match (a, b) {
        (Some(x), Some(y)) => x.eq(y),
        (None, None) => true,
        _ => false,
    }
}

impl SpotFilter {
    /// A copy of this filter.
    pub fn duplicate(&self) -> (r: SpotFilter)
        ensures
            r@ == self@,
    {
        SpotFilter {
            source: self.source,
            callsign: clone_opt_string(&self.callsign),
            reporter: clone_opt_string(&self.reporter),
            grid: clone_opt_string(&self.grid),
            band_hz: self.band_hz,
            snr_min: self.snr_min,
            power_max: self.power_max,
            since_unix: self.since_unix,
            until_unix: self.until_unix,
            limit: self.limit,
            offset: self.offset,
            grid_only: self.grid_only,
        }
    }

    /// Whether two filters hold the same constraints.
    pub fn same_as(&self, other: &SpotFilter) -> (r: bool)
        ensures
            r == (self@ == other@),
    {
        let r = self.source == other.source && opt_string_eq(&self.callsign, &other.callsign)
            && opt_string_eq(&self.reporter, &other.reporter) && opt_string_eq(
            &self.grid,
            &other.grid,
        ) && self.band_hz == other.band_hz && self.snr_min == other.snr_min && self.power_max
            == other.power_max && self.since_unix == other.since_unix && self.until_unix
            == other.until_unix && self.limit == other.limit && self.offset == other.offset
            && self.grid_only == other.grid_only;
        r
    }
}

} // verus!
