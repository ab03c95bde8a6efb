//! The WSPR band table with its marker colours, band lookup by frequency,
//! and Maidenhead locator decoding.
//!
//! Coordinates are exact: a grid-cell centre is given in 1/48ths of a
//! degree, which represents every 4- and 6-character cell centre without
//! rounding.
use vstd::prelude::*;

use crate::text::{ascii_upper, ascii_upper_seq, push_char, to_uppercase, unicode_uppercase};
use vstd::string::StringExecFns;
use vstd::utf8::{encode_utf8, is_ascii_chars, is_ascii_chars_encode_utf8};

verus! {

// ---------------------------------------------------------------------------
// Band table
// ---------------------------------------------------------------------------

/// Static descriptor for a standard WSPR amateur radio band.
pub struct BandDef {
    /// Human-readable band name, e.g. `"20m"`.
    pub name: String,
    /// Nominal WSPR dial frequency in Hz.
    pub dial_hz: u64,
    /// CSS hex colour for map markers, `"#RRGGBB"`.
    pub color: String,
}

/// Number of standard WSPR bands.
pub const BAND_COUNT: usize = 17;

/// Maximum distance in Hz from a dial frequency at which a spot still counts
/// as being on that band (exclusive).
pub const BAND_TOLERANCE_HZ: u64 = 10_000;

/// Name of band `i` of the canonical table.
pub open spec fn band_name(i: int) -> Seq<char> {
    if i == 0 {
        "2200m"@
    } else if i == 1 {
        "630m"@
    } else if i == 2 {
        "160m"@
    } else if i == 3 {
        "80m"@
    } else if i == 4 {
        "60m"@
    } else if i == 5 {
        "40m"@
    } else if i == 6 {
        "30m"@
    } else if i == 7 {
        "20m"@
    } else if i == 8 {
        "17m"@
    } else if i == 9 {
        "15m"@
    } else if i == 10 {
        "12m"@
    } else if i == 11 {
        "10m"@
    } else if i == 12 {
        "6m"@
    } else if i == 13 {
        "4m"@
    } else if i == 14 {
        "2m"@
    } else if i == 15 {
        "70cm"@
    } else {
        "23cm"@
    }
}

/// Dial frequency in Hz of band `i` of the canonical table.
pub open spec fn band_dial_hz(i: int) -> int {
    if i == 0 {
        136_000
    } else if i == 1 {
        474_200
    } else if i == 2 {
        1_836_600
    } else if i == 3 {
        3_592_600
    } else if i == 4 {
        5_287_200
    } else if i == 5 {
        7_038_600
    } else if i == 6 {
        10_138_700
    } else if i == 7 {
        14_095_600
    } else if i == 8 {
        18_104_600
    } else if i == 9 {
        21_094_600
    } else if i == 10 {
        24_924_600
    } else if i == 11 {
        28_124_600
    } else if i == 12 {
        50_293_000
    } else if i == 13 {
        70_091_000
    } else if i == 14 {
        144_489_000
    } else if i == 15 {
        432_300_000
    } else {
        1_296_500_000
    }
}

fn band_raw(i: usize) -> (r: (&'static str, u64))
    requires
        i < BAND_COUNT,
    ensures
        r.0@ == band_name(i as int),
        r.1 == band_dial_hz(i as int),
{
    match i {
        0 => ("2200m", 136_000),
        1 => ("630m", 474_200),
        2 => ("160m", 1_836_600),
        3 => ("80m", 3_592_600),
        4 => ("60m", 5_287_200),
        5 => ("40m", 7_038_600),
        6 => ("30m", 10_138_700),
        7 => ("20m", 14_095_600),
        8 => ("17m", 18_104_600),
        9 => ("15m", 21_094_600),
        10 => ("12m", 24_924_600),
        11 => ("10m", 28_124_600),
        12 => ("6m", 50_293_000),
        13 => ("4m", 70_091_000),
        14 => ("2m", 144_489_000),
        15 => ("70cm", 432_300_000),
        _ => ("23cm", 1_296_500_000),
    }
}

// ---------------------------------------------------------------------------
// Band colours
// ---------------------------------------------------------------------------

/// Hue resolution: hues are measured in 10^-14 of a degree, which holds the
/// golden angle 137.50776405018735° exactly.
pub open spec fn hue_unit() -> int {
    100_000_000_000_000
}

/// Hue of band `i`: `(i × 137.50776405018735° + 30°) mod 360°`, in hue units.
pub open spec fn band_hue(i: int) -> int {
    (i * 13_750_776_405_018_735 + 30 * hue_unit()) % (360 * hue_unit())
}

/// One RGB channel of an HSL colour with saturation 100% and lightness 55%
/// (chroma 0.9, offset 0.1), where the channel's share of the chroma is
/// `k / (60 × hue_unit())`: `round(255 × (0.9 × k / (60 × hue_unit()) + 0.1))`,
/// halves rounded up.
pub open spec fn channel_level(k: int) -> int {
    (255 * (9 * k + 60 * hue_unit()) + 300 * hue_unit()) / (600 * hue_unit())
}

/// RGB channels of the colour with hue `h` (in hue units, `0 <= h < 360°`),
/// saturation 100% and lightness 55%, by the standard HSL-to-RGB sectors.
pub open spec fn hsl_rgb(h: int) -> (int, int, int) {
    let sector = h / (60 * hue_unit());
    let t = h % (120 * hue_unit());
    let d = if t >= 60 * hue_unit() {
        t - 60 * hue_unit()
    } else {
        60 * hue_unit() - t
    };
    let c = channel_level(60 * hue_unit());
    let x = channel_level(60 * hue_unit() - d);
    let z = channel_level(0);
    if sector == 0 {
        (c, x, z)
    } else if sector == 1 {
        (x, c, z)
    } else if sector == 2 {
        (z, c, x)
    } else if sector == 3 {
        (z, x, c)
    } else if sector == 4 {
        (x, z, c)
    } else {
        (c, z, x)
    }
}

/// Upper-case hexadecimal digit for `d < 16`.
pub open spec fn hex_digit(d: int) -> char {
    if d < 10 {
        (d + 48) as char
    } else {
        (d + 55) as char
    }
}

/// Two upper-case hex digits of a byte.
pub open spec fn hex_byte(b: int) -> Seq<char> {
    seq![hex_digit(b / 16), hex_digit(b % 16)]
}

/// CSS colour `"#RRGGBB"` of an RGB triple.
pub open spec fn css_hex(rgb: (int, int, int)) -> Seq<char> {
    seq!['#'] + hex_byte(rgb.0) + hex_byte(rgb.1) + hex_byte(rgb.2)
}

/// Marker colour of band `i`.
pub open spec fn band_color(i: int) -> Seq<char> {
    css_hex(hsl_rgb(band_hue(i)))
}

fn push_hex_byte(s: &mut String, b: u64)
    requires
        b < 256,
    ensures
        final(s)@ == old(s)@ + hex_byte(b as int),
{
    let hi = b / 16;
    let lo = b % 16;
    let c1 = if hi < 10 {
        (hi as u8 + 48u8) as char
    } else {
        (hi as u8 + 55u8) as char
    };
    let c2 = if lo < 10 {
        (lo as u8 + 48u8) as char
    } else {
        (lo as u8 + 55u8) as char
    };
    push_char(s, c1);
    push_char(s, c2);
    proof {
        assert(old(s)@.push(c1).push(c2) == old(s)@ + hex_byte(b as int));
    }
}

fn channel(k: u128) -> (r: u64)
    requires
        k <= 6_000_000_000_000_000,
    ensures
        r == channel_level(k as int),
        r < 256,
{
    let v = (255 * (9 * k + 6_000_000_000_000_000) + 30_000_000_000_000_000) / 60_000_000_000_000_000;
    proof {
        assert(255 * (9 * k + 6_000_000_000_000_000) + 30_000_000_000_000_000 < 256
            * 60_000_000_000_000_000);
    }
    v as u64
}

/// CSS colour of the HSL colour with hue `hue` (in hue units), saturation
/// 100% and lightness 55%.
pub fn hsl_to_hex(hue: u64) -> (s: String)
    requires
        hue < 36_000_000_000_000_000,
    ensures
        s@ == css_hex(hsl_rgb(hue as int)),
{
    let u: u128 = 100_000_000_000_000;
    let h = hue as u128;
    let sector = h / (60 * u);
    let t = h % (120 * u);
    let d = if t >= 60 * u {
        t - 60 * u
    } else {
        60 * u - t
    };
    let c = channel(60 * u);
    let x = channel(60 * u - d);
    let z = channel(0);
    let (r, g, b) = if sector == 0 {
        (c, x, z)
    } else if sector == 1 {
        (x, c, z)
    } else if sector == 2 {
        (z, c, x)
    } else if sector == 3 {
        (z, x, c)
    } else if sector == 4 {
        (x, z, c)
    } else {
        (c, z, x)
    };
    let mut s = String::new();
    push_char(&mut s, '#');
    push_hex_byte(&mut s, r);
    push_hex_byte(&mut s, g);
    push_hex_byte(&mut s, b);
    proof {
        assert(s@ == css_hex(hsl_rgb(hue as int)));
    }
    s
}

/// Hue of band `i` in hue units.
fn band_hue_exec(i: usize) -> (h: u64)
    requires
        i < BAND_COUNT,
    ensures
        h == band_hue(i as int),
        h < 36_000_000_000_000_000,
{
    ((i as u64) * 13_750_776_405_018_735 + 3_000_000_000_000_000) % 36_000_000_000_000_000
}

/// True when `b` is band `i` of the canonical table.
pub open spec fn is_band(b: BandDef, i: int) -> bool {
    &&& b.name@ == band_name(i)
    &&& b.dial_hz == band_dial_hz(i)
    &&& b.color@ == band_color(i)
}

/// Band `i` of the canonical table.
pub fn band_def(i: usize) -> (b: BandDef)
    requires
        i < BAND_COUNT,
    ensures
        is_band(b, i as int),
{
    let (name, dial_hz) = band_raw(i);
    let color = hsl_to_hex(band_hue_exec(i));
    BandDef { name: String::from_str(name), dial_hz, color }
}

/// The canonical list of WSPR bands, in order of frequency, each with its
/// marker colour: band `i` has hue `(i × 137.50776405018735° + 30°) mod 360°`,
/// saturation 100% and lightness 55%.
pub fn wspr_bands() -> (bands: Vec<BandDef>)
    ensures
        bands.len() == BAND_COUNT,
        forall|i: int| 0 <= i < BAND_COUNT ==> is_band(#[trigger] bands@[i], i),
{
    let mut bands: Vec<BandDef> = Vec::new();
    let mut i: usize = 0;
    while i < BAND_COUNT
        invariant
            i <= BAND_COUNT,
            bands.len() == i,
            forall|j: int| 0 <= j < i ==> is_band(#[trigger] bands@[j], j),
        decreases BAND_COUNT - i,
    {
        bands.push(band_def(i));
        i = i + 1;
    }
    bands
}

// ---------------------------------------------------------------------------
// Band lookup
// ---------------------------------------------------------------------------

/// Distance in Hz between `freq_hz` and the dial frequency of band `i`.
pub open spec fn band_distance(freq_hz: int, i: int) -> int {
    if freq_hz >= band_dial_hz(i) {
        freq_hz - band_dial_hz(i)
    } else {
        band_dial_hz(i) - freq_hz
    }
}

/// True when `freq_hz` lies within the tolerance of band `i`.
pub open spec fn within_band(freq_hz: int, i: int) -> bool {
    0 <= i < BAND_COUNT && band_distance(freq_hz, i) < BAND_TOLERANCE_HZ
}

/// The band closest to `freq_hz` among those within tolerance, if any.
pub open spec fn find_band_index(freq_hz: int) -> Option<int> {
    if exists|i: int| within_band(freq_hz, i) {
        Some(choose|i: int| within_band(freq_hz, i))
    } else {
        None
    }
}

proof fn lemma_dials_apart(i: int, j: int)
    requires
        0 <= i < j < BAND_COUNT,
    ensures
        band_dial_hz(j) - band_dial_hz(i) >= 2 * BAND_TOLERANCE_HZ,
{
}

/// No frequency is within tolerance of two different bands, so the band
/// that `find_band` picks is the unique match.
pub proof fn lemma_band_match_unique(freq_hz: int, i: int, j: int)
    requires
        within_band(freq_hz, i),
        within_band(freq_hz, j),
    ensures
        i == j,
{
    if i < j {
        lemma_dials_apart(i, j);
    } else if j < i {
        lemma_dials_apart(j, i);
    }
}

/// Index of the band within tolerance of `freq_hz`, if any.
pub fn find_band_position(freq_hz: u64) -> (r: Option<usize>)
    ensures
        r matches Some(i) ==> i < BAND_COUNT && find_band_index(freq_hz as int) == Some(i as int),
        r is None ==> find_band_index(freq_hz as int) is None,
{
    let mut i: usize = 0;
    while i < BAND_COUNT
        invariant
            i <= BAND_COUNT,
            forall|j: int| 0 <= j < i ==> !within_band(freq_hz as int, j),
        decreases BAND_COUNT - i,
    {
        let (_, dial) = band_raw(i);
        let dist = if freq_hz >= dial {
            freq_hz - dial
        } else {
            dial - freq_hz
        };
        if dist < BAND_TOLERANCE_HZ {
            proof {
                assert(within_band(freq_hz as int, i as int));
                let k = choose|k: int| within_band(freq_hz as int, k);
                lemma_band_match_unique(freq_hz as int, i as int, k);
            }
            return Some(i);
        }
        i = i + 1;
    }
    None
}

/// Find the standard WSPR band closest to `freq_hz` (in Hz), within
/// `BAND_TOLERANCE_HZ`; `None` when no band matches.
pub fn find_band(freq_hz: u64) -> (r: Option<BandDef>)
    ensures
        r is None <==> find_band_index(freq_hz as int) is None,
        r matches Some(b) ==> is_band(b, find_band_index(freq_hz as int)->0),
        r matches Some(b) ==> forall|j: int|
            within_band(freq_hz as int, j) ==> band_distance(freq_hz as int, find_band_index(
                freq_hz as int,
            )->0) <= #[trigger] band_distance(freq_hz as int, j),
{
    match find_band_position(freq_hz) {
        Some(i) => {
            proof {
                assert forall|j: int| within_band(freq_hz as int, j) implies band_distance(
                    freq_hz as int,
                    i as int,
                ) <= #[trigger] band_distance(freq_hz as int, j) by {
                    let k = choose|k: int| within_band(freq_hz as int, k);
                    lemma_band_match_unique(freq_hz as int, k, j);
                }
            }
            Some(band_def(i))
        },
        None => None,
    }
}

// ---------------------------------------------------------------------------
// Maidenhead locators
// ---------------------------------------------------------------------------

/// Centre of a Maidenhead grid cell, in 1/48ths of a degree
/// (north and east positive).
pub struct GridCenter {
    /// Latitude × 48, from -90° × 48 to +90° × 48.
    pub lat_48ths: i64,
    /// Longitude × 48, from -180° × 48 to +180° × 48.
    pub lon_48ths: i64,
}

/// True when byte `b` lies in `lo..=lo + span`.
pub open spec fn byte_in(b: u8, lo: int, span: int) -> bool {
    lo <= b && b <= lo + span
}

/// Decodes the UTF-8 bytes of an upper-cased locator: exactly 4 bytes (field
/// letters `A`–`R`, 20° × 10°, then square digits `0`–`9`, 2° × 1°) or
/// exactly 6 bytes (the same, then subsquare letters `A`–`X`, 5' × 2.5').
/// The centre is that of the smallest cell named; `None` for any other
/// length or when a byte is out of range.
pub open spec fn maidenhead_center(b: Seq<u8>) -> Option<GridCenter> {
    if !(b.len() == 4 || b.len() == 6) {
        None
    } else if !(byte_in(b[0], 65, 17) && byte_in(b[1], 65, 17) && byte_in(b[2], 48, 9) && byte_in(
        b[3],
        48,
        9,
    )) {
        None
    } else {
        let lon_base = 48 * (-180 + 20 * (b[0] - 65) + 2 * (b[2] - 48));
        let lat_base = 48 * (-90 + 10 * (b[1] - 65) + (b[3] - 48));
        if b.len() == 6 {
            if !(byte_in(b[4], 65, 23) && byte_in(b[5], 65, 23)) {
                None
            } else {
                Some(
                    GridCenter {
                        lat_48ths: (lat_base + 2 * (b[5] - 65) + 1) as i64,
                        lon_48ths: (lon_base + 4 * (b[4] - 65) + 2) as i64,
                    },
                )
            }
        } else {
            Some(GridCenter { lat_48ths: (lat_base + 24) as i64, lon_48ths: (lon_base + 48) as i64 })
        }
    }
}

/// UTF-8 length of a string's characters.
pub open spec fn utf8_len(s: Seq<char>) -> int {
    encode_utf8(s).len() as int
}

/// Centre of the cell named by an already upper-cased locator; `None`
/// unless it is a valid 4- or 6-byte locator.
pub fn latlon_from_uppercase(upper: &str) -> (r: Option<GridCenter>)
    ensures
        r == maidenhead_center(encode_utf8(upper@)),
{
    let b = upper.as_bytes();
    assert(b@ == encode_utf8(upper@));
    if !(b.len() == 4 || b.len() == 6) {
        return None;
    }
    if !(b[0] >= 65 && b[0] <= 82 && b[1] >= 65 && b[1] <= 82 && b[2] >= 48 && b[2] <= 57 && b[3]
        >= 48 && b[3] <= 57) {
        return None;
    }
    let lon_base: i64 = 48 * (-180 + 20 * (b[0] as i64 - 65) + 2 * (b[2] as i64 - 48));
    let lat_base: i64 = 48 * (-90 + 10 * (b[1] as i64 - 65) + (b[3] as i64 - 48));
    if b.len() == 6 {
        if !(b[4] >= 65 && b[4] <= 88 && b[5] >= 65 && b[5] <= 88) {
            return None;
        }
        Some(
            GridCenter {
                lat_48ths: lat_base + 2 * (b[5] as i64 - 65) + 1,
                lon_48ths: lon_base + 4 * (b[4] as i64 - 65) + 2,
            },
        )
    } else {
        Some(GridCenter { lat_48ths: lat_base + 24, lon_48ths: lon_base + 48 })
    }
}

/// What [`grid_to_latlon`] returns: `None` for a locator shorter than 4
/// bytes, otherwise the decoded centre of its upper-cased bytes (`None`
/// unless those are a valid 4- or 6-byte locator).
pub open spec fn grid_to_latlon_spec(grid: Seq<char>) -> Option<GridCenter> {
    if utf8_len(grid) < 4 {
        None
    } else {
        maidenhead_center(encode_utf8(unicode_uppercase(grid)))
    }
}

/// Convert a 4- or 6-character Maidenhead locator (case-insensitive) to the
/// centre of its grid cell.  `None` when the locator is empty, of the wrong
/// length, or holds an out-of-range character.
pub fn grid_to_latlon(grid: &str) -> (r: Option<GridCenter>)
    ensures
        r == grid_to_latlon_spec(grid@),
        is_ascii_chars(grid@) ==> r == ascii_grid_center(grid@),
{
    proof {
        if is_ascii_chars(grid@) {
            lemma_ascii_upper_is_ascii(grid@);
            is_ascii_chars_encode_utf8(grid@);
            is_ascii_chars_encode_utf8(ascii_upper_seq(grid@));
        }
    }
    if grid.as_bytes().len() < 4 {
        return None;
    }
    let upper = to_uppercase(grid);
    latlon_from_uppercase(upper.as_str())
}

/// The decoded centre of an ASCII locator: that of its ASCII upper case,
/// `None` unless that is a valid 4- or 6-character locator.
pub open spec fn ascii_grid_center(grid: Seq<char>) -> Option<GridCenter> {
    maidenhead_center(encode_utf8(ascii_upper_seq(grid)))
}

/// ASCII upper-casing keeps text ASCII and keeps its length.
proof fn lemma_ascii_upper_is_ascii(s: Seq<char>)
    requires
        is_ascii_chars(s),
    ensures
        is_ascii_chars(ascii_upper_seq(s)),
        ascii_upper_seq(s).len() == s.len(),
{
    assert forall|i: int| 0 <= i < ascii_upper_seq(s).len() implies '\0' <= #[trigger] ascii_upper_seq(
        s,
    )[i] <= '\u{7f}' by {
        assert(ascii_upper_seq(s)[i] == ascii_upper(s[i]));
    }
}

/// Locators are case-insensitive: two ASCII locators that differ only in the
/// case of their letters decode to the same centre (or both to `None`).
pub proof fn lemma_ascii_case_insensitive(a: Seq<char>, b: Seq<char>)
    requires
        a.len() == b.len(),
        forall|i: int| 0 <= i < a.len() ==> ascii_upper(#[trigger] a[i]) == ascii_upper(b[i]),
    ensures
        ascii_grid_center(a) == ascii_grid_center(b),
{
    assert(ascii_upper_seq(a) =~= ascii_upper_seq(b));
}

/// A 6-character locator refines its 4-character square: when both decode,
/// the subsquare's centre lies strictly inside the 2° × 1° square of its
/// first four characters (less than 1° of longitude and 0.5° of latitude
/// from the square's centre).
pub proof fn lemma_subsquare_inside_square(b: Seq<u8>)
    requires
        b.len() == 6,
        maidenhead_center(b) is Some,
    ensures
        maidenhead_center(b.take(4)) is Some,
        ({
            let s = maidenhead_center(b)->0;
            let c = maidenhead_center(b.take(4))->0;
            &&& c.lon_48ths - 48 < s.lon_48ths < c.lon_48ths + 48
            &&& c.lat_48ths - 24 < s.lat_48ths < c.lat_48ths + 24
        }),
{
    let t = b.take(4);
    assert(t.len() == 4);
    assert(t[0] == b[0] && t[1] == b[1] && t[2] == b[2] && t[3] == b[3]);
}

} // verus!
