//! Aggregate statistics and per-band summaries returned to the browser.
use vstd::prelude::*;

use crate::models::grid::{band_color, band_def, band_dial_hz, band_name, find_band, find_band_index, BAND_COUNT};
use vstd::string::StringExecFns;

verus! {

/// Aggregate statistics over a set of spots.
#[derive(Debug, Clone, Copy, PartialEq, Eq, Structural)]
pub struct SpotStats {
    /// Total number of decoded spots in the time window.
    pub total_spots: u64,
    /// Number of unique callsigns heard.
    pub unique_callsigns: u64,
    /// Number of unique grid squares reported.
    pub unique_grids: u64,
    /// Oldest spot timestamp (Unix seconds); `0` when no spots exist.
    pub oldest_unix: i64,
    /// Most recent spot timestamp (Unix seconds); `0` when no spots exist.
    pub newest_unix: i64,
}

/// Row of the statistics aggregate query, as the database returns it.
#[derive(Debug, Clone, Copy, PartialEq, Eq, Structural)]
pub struct SpotStatsRow {
    pub total_spots: u64,
    pub unique_callsigns: u64,
    pub unique_grids: u64,
    pub oldest_unix: i64,
    pub newest_unix: i64,
}

/// The statistics that a row of the aggregate query states.
pub open spec fn stats_of_row(r: SpotStatsRow) -> SpotStats {
    SpotStats {
        total_spots: r.total_spots,
        unique_callsigns: r.unique_callsigns,
        unique_grids: r.unique_grids,
        oldest_unix: r.oldest_unix,
        newest_unix: r.newest_unix,
    }
}

impl From<SpotStatsRow> for SpotStats {
    fn from(r: SpotStatsRow) -> (s: Self) {
        SpotStats {
            total_spots: r.total_spots,
            unique_callsigns: r.unique_callsigns,
            unique_grids: r.unique_grids,
            oldest_unix: r.oldest_unix,
            newest_unix: r.newest_unix,
        }
    }
}

impl vstd::std_specs::convert::FromSpecImpl<SpotStatsRow> for SpotStats {
    open spec fn obeys_from_spec() -> bool {
        true
    }

    open spec fn from_spec(r: SpotStatsRow) -> SpotStats {
        stats_of_row(r)
    }
}

/// Statistics with every count and timestamp zero (no spots).
pub open spec fn empty_stats() -> SpotStats {
    SpotStats {
        total_spots: 0,
        unique_callsigns: 0,
        unique_grids: 0,
        oldest_unix: 0,
        newest_unix: 0,
    }
}

/// The statistics that the aggregate query's rows state: those of the
/// first row, or all zero when there is none.
pub fn stats_from_rows(rows: &Vec<SpotStatsRow>) -> (s: SpotStats)
    ensures
        s == (if rows.len() == 0 {
            empty_stats()
        } else {
            stats_of_row(rows@[0])
        }),
{
    if rows.len() == 0 {
        SpotStats {
            total_spots: 0,
            unique_callsigns: 0,
            unique_grids: 0,
            oldest_unix: 0,
            newest_unix: 0,
        }
    } else {
        SpotStats::from(rows[0])
    }
}

/// Per-band summary: the band's identity and how many spots it holds.
pub struct BandInfo {
    /// Band name, e.g. `"20m"`.
    pub name: String,
    /// Nominal WSPR dial frequency in Hz.
    pub dial_hz: u64,
    /// Map-marker CSS colour for this band.
    pub color: String,
    /// Number of spots on this band in the queried time window.
    pub spot_count: u64,
}

/// True when `b` describes band `i` of the canonical table with `count` spots.
pub open spec fn is_band_info(b: BandInfo, i: int, count: int) -> bool {
    &&& b.name@ == band_name(i)
    &&& b.dial_hz == crate::models::grid::band_dial_hz(i)
    &&& b.color@ == band_color(i)
    &&& b.spot_count == count
}

/// Band `i` of the canonical table with a spot count.
pub fn band_info(i: usize, count: u64) -> (b: BandInfo)
    requires
        i < BAND_COUNT,
    ensures
        is_band_info(b, i as int, count as int),
{
    let d = band_def(i);
    BandInfo { name: d.name, dial_hz: d.dial_hz, color: d.color, spot_count: count }
}

/// The full band palette with zero spot counts, in canonical order (what the
/// browser receives before any counts are known).
pub fn bands_without_counts() -> (bands: Vec<BandInfo>)
    ensures
        bands.len() == BAND_COUNT,
        forall|i: int| 0 <= i < BAND_COUNT ==> is_band_info(#[trigger] bands@[i], i, 0),
{
    let mut bands: Vec<BandInfo> = Vec::new();
    let mut i: usize = 0;
    while i < BAND_COUNT
        invariant
            i <= BAND_COUNT,
            bands.len() == i,
            forall|j: int| 0 <= j < i ==> is_band_info(#[trigger] bands@[j], j, 0),
        decreases BAND_COUNT - i,
    {
        bands.push(band_info(i, 0));
        i = i + 1;
    }
    bands
}

/// The spot count that a list of band summaries gives the band with dial
/// frequency `dial_hz`: that of the first summary for it, 0 when none.
pub open spec fn counted_for(counted: Seq<BandInfo>, dial_hz: int) -> int
    decreases counted.len(),
{
    if counted.len() == 0 {
        0
    } else if counted[0].dial_hz == dial_hz {
        counted[0].spot_count as int
    } else {
        counted_for(counted.drop_first(), dial_hz)
    }
}

/// The count that `counted` gives the band with dial `dial_hz`.
fn count_for(counted: &[BandInfo], dial_hz: u64) -> (c: u64)
    ensures
        c == counted_for(counted@, dial_hz as int),
{
    let mut j: usize = 0;
    proof {
        assert(counted@.subrange(0, counted@.len() as int) =~= counted@);
    }
    while j < counted.len()
        invariant
            j <= counted.len(),
            counted_for(counted@, dial_hz as int) == counted_for(
                counted@.subrange(j as int, counted@.len() as int),
                dial_hz as int,
            ),
        decreases counted.len() - j,
    {
        let ghost rest = counted@.subrange(j as int, counted@.len() as int);
        if counted[j].dial_hz == dial_hz {
            assert(rest[0] == counted@[j as int]);
            return counted[j].spot_count;
        }
        proof {
            assert(rest.drop_first() =~= counted@.subrange(j + 1, counted@.len() as int));
        }
        j = j + 1;
    }
    0
}

/// The full band palette in canonical order, each band with the count that
/// `counted` (a list of band summaries) gives it, 0 for bands it omits.
pub fn palette_with_counts(counted: &[BandInfo]) -> (bands: Vec<BandInfo>)
    ensures
        bands.len() == BAND_COUNT,
        forall|i: int|
            0 <= i < BAND_COUNT ==> is_band_info(
                #[trigger] bands@[i],
                i,
                counted_for(counted@, band_dial_hz(i)),
            ),
{
    let mut bands: Vec<BandInfo> = Vec::new();
    let mut i: usize = 0;
    while i < BAND_COUNT
        invariant
            i <= BAND_COUNT,
            bands.len() == i,
            forall|j: int|
                0 <= j < i ==> is_band_info(
                    #[trigger] bands@[j],
                    j,
                    counted_for(counted@, band_dial_hz(j)),
                ),
        decreases BAND_COUNT - i,
    {
        let d = band_def(i);
        let c = count_for(counted, d.dial_hz);
        bands.push(BandInfo { name: d.name, dial_hz: d.dial_hz, color: d.color, spot_count: c });
        i = i + 1;
    }
    bands
}

/// `(band name, band colour)` for a carrier frequency in Hz, or
/// `("unknown", "#808080")` when no standard band matches.
pub fn band_info_for(freq_hz: u64) -> (r: (String, String))
    ensures
        match find_band_index(freq_hz as int) {
            Some(i) => r.0@ == band_name(i) && r.1@ == band_color(i),
            None => r.0@ == "unknown"@ && r.1@ == "#808080"@,
        },
{
    match find_band(freq_hz) {
        Some(b) => (b.name, b.color),
        None => (String::from_str("unknown"), String::from_str("#808080")),
    }
}

} // verus!
