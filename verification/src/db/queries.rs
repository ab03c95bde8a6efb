//! SQL text for every ClickHouse query, and the processing of query results.
//!
//! Numbers are written into the SQL in decimal.  String values from users
//! (callsigns, grid locators) are sanitised before they are embedded,
//! keeping only characters that are valid in those fields, so they cannot
//! carry SQL syntax.
use vstd::prelude::*;

use crate::models::filter::{SpotFilter, SpotFilterView};
use crate::models::grid::{find_band_index, find_band_position, BAND_COUNT};
use crate::models::spot::{band_info, is_band_info, BandInfo};
use crate::text::{
    ascii_upper_seq, char_is_ascii_alnum, decimal_int, decimal_nat, is_ascii_alnum, push_char,
    push_i64, push_u64, to_ascii_upper,
};
use vstd::string::{StrSliceExecFns, StringExecFns};

verus! {

// ---------------------------------------------------------------------------
// String sanitisers
// ---------------------------------------------------------------------------

/// Characters allowed in a callsign: ASCII letters, digits and `/`.
pub open spec fn is_callsign_char(c: char) -> bool {
    is_ascii_alnum(c) || c == '/'
}

/// The characters of `s` that are allowed in a callsign, in order.
pub open spec fn callsign_chars(s: Seq<char>) -> Seq<char>
    decreases s.len(),
{
    if s.len() == 0 {
        Seq::empty()
    } else if is_callsign_char(s.last()) {
        callsign_chars(s.drop_last()).push(s.last())
    } else {
        callsign_chars(s.drop_last())
    }
}

/// The ASCII letters and digits of `s`, in order.
pub open spec fn alnum_chars(s: Seq<char>) -> Seq<char>
    decreases s.len(),
{
    if s.len() == 0 {
        Seq::empty()
    } else if is_ascii_alnum(s.last()) {
        alnum_chars(s.drop_last()).push(s.last())
    } else {
        alnum_chars(s.drop_last())
    }
}

/// At most the first `n` characters of `s`.
pub open spec fn truncate(s: Seq<char>, n: int) -> Seq<char> {
    if s.len() <= n {
        s
    } else {
        s.take(n)
    }
}

/// A callsign reduced to its first 20 allowed characters.
pub open spec fn sanitised_callsign(s: Seq<char>) -> Seq<char> {
    truncate(callsign_chars(s), 20)
}

/// A grid locator reduced to its first 6 ASCII letters and digits.
pub open spec fn sanitised_locator(s: Seq<char>) -> Seq<char> {
    truncate(alnum_chars(s), 6)
}

proof fn lemma_truncate_push(s: Seq<char>, c: char, n: int)
    requires
        n >= 0,
    ensures
        truncate(s.push(c), n) == (if s.len() < n {
            truncate(s, n).push(c)
        } else {
            truncate(s, n)
        }),
{
    if s.len() >= n {
        assert(s.push(c).take(n) == truncate(s, n));
    }
}

/// Remove every character that is not an ASCII letter, digit or `/`, and
/// keep at most 20 characters.
pub fn sanitise_callsign(s: &str) -> (r: String)
    ensures
        r@ == sanitised_callsign(s@),
        r@.len() <= 20,
        forall|i: int| 0 <= i < r@.len() ==> is_callsign_char(#[trigger] r@[i]),
{
    let mut r = String::new();
    let mut kept: usize = 0;
    for c in it: s.chars()
        invariant
            it.seq() == s@,
            r@ == sanitised_callsign(it.seq().take(it.index() as int)),
            kept as int == r@.len(),
    {
        let ghost prefix = it.seq().take(it.index() as int);
        proof {
            assert(it.seq().take(it.index() + 1) == prefix.push(c));
            assert(prefix.push(c).drop_last() == prefix);
            lemma_truncate_push(callsign_chars(prefix), c, 20);
        }
        if char_is_ascii_alnum(c) || c == '/' {
            if kept < 20 {
                push_char(&mut r, c);
                kept = kept + 1;
            }
        }
    }
    proof {
        assert(s@.take(s@.len() as int) == s@);
        lemma_callsign_chars_allowed(s@);
    }
    r
}

proof fn lemma_callsign_chars_allowed(s: Seq<char>)
    ensures
        forall|i: int|
            0 <= i < callsign_chars(s).len() ==> is_callsign_char(#[trigger] callsign_chars(s)[i]),
    decreases s.len(),
{
    if s.len() > 0 {
        lemma_callsign_chars_allowed(s.drop_last());
        let p = callsign_chars(s.drop_last());
        assert forall|i: int| 0 <= i < callsign_chars(s).len() implies is_callsign_char(#[trigger] callsign_chars(s)[i]) by {
            if is_callsign_char(s.last()) {
                assert(callsign_chars(s) == p.push(s.last()));
                if i < p.len() {
                    assert(callsign_chars(s)[i] == p[i]);
                }
            }
        }
    }
}

proof fn lemma_alnum_chars_allowed(s: Seq<char>)
    ensures
        forall|i: int| 0 <= i < alnum_chars(s).len() ==> is_ascii_alnum(#[trigger] alnum_chars(s)[i]),
    decreases s.len(),
{
    if s.len() > 0 {
        lemma_alnum_chars_allowed(s.drop_last());
        let p = alnum_chars(s.drop_last());
        assert forall|i: int| 0 <= i < alnum_chars(s).len() implies is_ascii_alnum(#[trigger] alnum_chars(s)[i]) by {
            if is_ascii_alnum(s.last()) {
                assert(alnum_chars(s) == p.push(s.last()));
                if i < p.len() {
                    assert(alnum_chars(s)[i] == p[i]);
                }
            }
        }
    }
}

/// Remove every character that is not an ASCII letter or digit, and keep at
/// most 6 characters.
pub fn sanitise_locator(s: &str) -> (r: String)
    ensures
        r@ == sanitised_locator(s@),
        r@.len() <= 6,
        forall|i: int| 0 <= i < r@.len() ==> is_ascii_alnum(#[trigger] r@[i]),
{
    let mut r = String::new();
    let mut kept: usize = 0;
    for c in it: s.chars()
        invariant
            it.seq() == s@,
            r@ == sanitised_locator(it.seq().take(it.index() as int)),
            kept as int == r@.len(),
    {
        let ghost prefix = it.seq().take(it.index() as int);
        proof {
            assert(it.seq().take(it.index() + 1) == prefix.push(c));
            assert(prefix.push(c).drop_last() == prefix);
            lemma_truncate_push(alnum_chars(prefix), c, 6);
        }
        if char_is_ascii_alnum(c) {
            if kept < 6 {
                push_char(&mut r, c);
                kept = kept + 1;
            }
        }
    }
    proof {
        assert(s@.take(s@.len() as int) == s@);
        lemma_alnum_chars_allowed(s@);
    }
    r
}

/// A filter value split into its negation flag and the rest: a leading `!`
/// is stripped and reported.
pub open spec fn split_exclude(s: Seq<char>) -> (bool, Seq<char>) {
    if s.len() > 0 && s[0] == '!' {
        (true, s.drop_first())
    } else {
        (false, s)
    }
}

/// Strip a leading `!` from a filter value and report whether it was present.
pub fn parse_exclude_prefix(s: &str) -> (r: (bool, &str))
    ensures
        (r.0, r.1@) == split_exclude(s@),
{
    let n = s.unicode_len();
    if n > 0 && s.get_char(0) == '!' {
        (true, s.substring_char(1, n))
    } else {
        (false, s)
    }
}

// ---------------------------------------------------------------------------
// WHERE-clause fragments
// ---------------------------------------------------------------------------

/// `'` + sanitised, upper-cased callsign + `'`, so that it compares with
/// `upper(callsign)` regardless of the case it was configured in.
pub open spec fn quoted_callsign(s: Seq<char>) -> Seq<char> {
    seq!['\''] + ascii_upper_seq(sanitised_callsign(s)) + seq!['\'']
}

/// The quoted, sanitised callsigns of `l`, separated by `", "`.
pub open spec fn quoted_list(l: Seq<Seq<char>>) -> Seq<char>
    decreases l.len(),
{
    if l.len() == 0 {
        Seq::empty()
    } else if l.len() == 1 {
        quoted_callsign(l[0])
    } else {
        quoted_list(l.drop_last()) + ", "@ + quoted_callsign(l.last())
    }
}

/// The characters of each string in `l`.
pub open spec fn str_views(l: Seq<String>) -> Seq<Seq<char>> {
    l.map_values(|s: String| s@)
}

/// The clause that excludes ignored callsigns; empty when none are ignored.
pub open spec fn ignore_clause(ignore: Seq<Seq<char>>) -> Seq<char> {
    if ignore.len() == 0 {
        Seq::empty()
    } else {
        " AND upper(callsign) NOT IN ("@ + quoted_list(ignore) + ")"@
    }
}

/// Append a `callsign NOT IN (...)` clause naming every ignored callsign,
/// each sanitised and upper-cased (the exclusion is case-insensitive).
/// Does nothing when `ignore` is empty.
pub fn append_ignore_callsigns(sql: &mut String, ignore: &[String])
    ensures
        final(sql)@ == old(sql)@ + ignore_clause(str_views(ignore@)),
{
    let ghost l = str_views(ignore@);
    if ignore.len() == 0 {
        proof {
            assert(old(sql)@ + Seq::<char>::empty() == old(sql)@);
        }
        return ;
    }
    sql.append(" AND upper(callsign) NOT IN (");
    let ghost start = sql@;
    let mut i: usize = 0;
    while i < ignore.len()
        invariant
            0 <= i <= ignore.len(),
            l == str_views(ignore@),
            l.len() == ignore@.len(),
            sql@ == start + quoted_list(l.take(i as int)),
        decreases ignore.len() - i,
    {
        if i > 0 {
            sql.append(", ");
        }
        push_char(sql, '\'');
        let safe = sanitise_callsign(ignore[i].as_str());
        let upper = to_ascii_upper(safe.as_str());
        sql.append(upper.as_str());
        push_char(sql, '\'');
        proof {
            let t = l.take(i + 1);
            assert(t.drop_last() == l.take(i as int));
            assert(t.last() == ignore@[i as int]@);
            if i == 0 {
                assert(l.take(0) == Seq::<Seq<char>>::empty());
                assert(sql@ == start + quoted_list(t));
            } else {
                assert(sql@ == start + quoted_list(t));
            }
        }
        i = i + 1;
    }
    sql.append(")");
    proof {
        assert(l.take(ignore.len() as int) == l);
    }
}

/// `"NOT "` when the match is negated, nothing otherwise.
pub open spec fn not_keyword(exclude: bool) -> Seq<char> {
    if exclude {
        "NOT "@
    } else {
        Seq::empty()
    }
}

/// Callsign prefix clause of a filter value.
pub open spec fn callsign_clause(value: Option<Seq<char>>) -> Seq<char> {
    match value {
        None => Seq::empty(),
        Some(v) => {
            let (exclude, raw) = split_exclude(v);
            let safe = sanitised_callsign(raw);
            if safe.len() == 0 {
                Seq::empty()
            } else {
                " AND upper(callsign) "@ + not_keyword(exclude) + "LIKE upper('"@ + safe + "%')"@
            }
        },
    }
}

/// Grid prefix clause of a filter value.
pub open spec fn grid_clause(value: Option<Seq<char>>) -> Seq<char> {
    match value {
        None => Seq::empty(),
        Some(v) => {
            let (exclude, raw) = split_exclude(v);
            let safe = sanitised_locator(raw);
            if safe.len() == 0 {
                Seq::empty()
            } else {
                " AND upper(grid) "@ + not_keyword(exclude) + "LIKE '"@ + ascii_upper_seq(safe)
                    + "%'"@
            }
        },
    }
}

/// Band clause: spots within 10 kHz of the dial frequency.
pub open spec fn band_clause(band_hz: Option<u64>) -> Seq<char> {
    match band_hz {
        None => Seq::empty(),
        Some(b) => " AND abs(freq_hz - "@ + decimal_nat(b as nat) + ") < 10000"@,
    }
}

/// Minimum-SNR clause.
pub open spec fn snr_clause(snr_min: Option<i32>) -> Seq<char> {
    match snr_min {
        None => Seq::empty(),
        Some(v) => " AND snr_db >= "@ + decimal_int(v as int),
    }
}

/// Maximum-power clause.
pub open spec fn power_clause(power_max: Option<i32>) -> Seq<char> {
    match power_max {
        None => Seq::empty(),
        Some(v) => " AND power_dbm <= "@ + decimal_int(v as int),
    }
}

/// The callsign, grid, band, SNR and power clauses of a filter, in that order.
pub open spec fn shared_filters_clause(f: SpotFilterView) -> Seq<char> {
    callsign_clause(f.callsign) + grid_clause(f.grid) + band_clause(f.band_hz) + snr_clause(
        f.snr_min,
    ) + power_clause(f.power_max)
}

fn append_callsign_clause(sql: &mut String, value: &Option<String>)
    ensures
        final(sql)@ == old(sql)@ + callsign_clause(crate::models::filter::opt_str_view(*value)),
{
    match value {
        None => {
            proof {
                assert(old(sql)@ + Seq::<char>::empty() == old(sql)@);
            }
        },
        Some(cs) => {
            let (exclude, raw) = parse_exclude_prefix(cs.as_str());
            let safe = sanitise_callsign(raw);
            if safe.as_str().unicode_len() == 0 {
                proof {
                    assert(old(sql)@ + Seq::<char>::empty() == old(sql)@);
                }
            } else {
                sql.append(" AND upper(callsign) ");
                if exclude {
                    sql.append("NOT ");
                }
                sql.append("LIKE upper('");
                sql.append(safe.as_str());
                sql.append("%')");
                proof {
                    assert(sql@ == old(sql)@ + (" AND upper(callsign) "@ + not_keyword(exclude)
                        + "LIKE upper('"@ + safe@ + "%')"@));
                }
            }
        },
    }
}

fn append_grid_clause(sql: &mut String, value: &Option<String>)
    ensures
        final(sql)@ == old(sql)@ + grid_clause(crate::models::filter::opt_str_view(*value)),
{
    match value {
        None => {
            proof {
                assert(old(sql)@ + Seq::<char>::empty() == old(sql)@);
            }
        },
        Some(g) => {
            let (exclude, raw) = parse_exclude_prefix(g.as_str());
            let safe = sanitise_locator(raw);
            if safe.as_str().unicode_len() == 0 {
                proof {
                    assert(old(sql)@ + Seq::<char>::empty() == old(sql)@);
                }
            } else {
                let upper = to_ascii_upper(safe.as_str());
                sql.append(" AND upper(grid) ");
                if exclude {
                    sql.append("NOT ");
                }
                sql.append("LIKE '");
                sql.append(upper.as_str());
                sql.append("%'");
                proof {
                    assert(sql@ == old(sql)@ + (" AND upper(grid) "@ + not_keyword(exclude)
                        + "LIKE '"@ + upper@ + "%'"@));
                }
            }
        },
    }
}

/// Append the callsign, grid, band, SNR and power clauses of `filter`.
/// Callsign and grid values may start with `!` to negate the match.
#[verifier::spinoff_prover]
#[verifier::rlimit(30)]
pub fn append_shared_filters(sql: &mut String, filter: &SpotFilter)
    ensures
        final(sql)@ == old(sql)@ + shared_filters_clause(filter@),
{
    append_callsign_clause(sql, &filter.callsign);
    let ghost s1 = sql@;
    append_grid_clause(sql, &filter.grid);
    let ghost s2 = sql@;
    match filter.band_hz {
        Some(b) => {
            sql.append(" AND abs(freq_hz - ");
            push_u64(sql, b);
            sql.append(") < 10000");
        },
        None => {},
    }
    let ghost s3 = sql@;
    match filter.snr_min {
        Some(v) => {
            sql.append(" AND snr_db >= ");
            push_i64(sql, v as i64);
        },
        None => {},
    }
    let ghost s4 = sql@;
    match filter.power_max {
        Some(v) => {
            sql.append(" AND power_dbm <= ");
            push_i64(sql, v as i64);
        },
        None => {},
    }
    proof {
        assert(s3 == s2 + band_clause(filter.band_hz));
        assert(s4 == s3 + snr_clause(filter.snr_min));
        assert(sql@ == s4 + power_clause(filter.power_max));
        assert(sql@ == old(sql)@ + shared_filters_clause(filter@));
    }
}

// ---------------------------------------------------------------------------
// Queries
// ---------------------------------------------------------------------------

/// The window start of a query: the filter's, or `default_since`.
pub open spec fn window_since(f: SpotFilterView, default_since: i64) -> i64 {
    match f.since_unix {
        Some(s) => s,
        None => default_since,
    }
}

/// The window end of a query: the filter's, or the largest `i64`.
pub open spec fn window_until(f: SpotFilterView) -> i64 {
    match f.until_unix {
        Some(u) => u,
        None => i64::MAX,
    }
}

/// The row limit of a query: the filter's, or `spot_limit`, and never more
/// than `spot_limit`.
pub open spec fn row_limit(f: SpotFilterView, spot_limit: u32) -> u32 {
    let l = match f.limit {
        Some(l) => l,
        None => spot_limit,
    };
    if l < spot_limit {
        l
    } else {
        spot_limit
    }
}

/// The row limit never exceeds the server's cap, whatever the request asks.
pub proof fn lemma_row_limit_capped(f: SpotFilterView, spot_limit: u32)
    ensures
        row_limit(f, spot_limit) <= spot_limit,
        f.limit is None ==> row_limit(f, spot_limit) == spot_limit,
{
}

fn limit_of(filter: &SpotFilter, spot_limit: u32) -> (l: u32)
    ensures
        l == row_limit(filter@, spot_limit),
{
    let l = match filter.limit {
        Some(l) => l,
        None => spot_limit,
    };
    if l < spot_limit {
        l
    } else {
        spot_limit
    }
}

/// SQL of the map-marker query: spots with a grid in the filter's window,
/// newest first.
pub open spec fn map_spots_sql_spec(
    f: SpotFilterView,
    table: Seq<char>,
    default_since: i64,
    ignore: Seq<Seq<char>>,
    spot_limit: u32,
) -> Seq<char> {
    "SELECT window_start_unix, callsign, grid, freq_hz, snr_db, power_dbm FROM "@ + table
        + " WHERE grid != '' AND window_start_unix >= "@ + decimal_int(
        window_since(f, default_since) as int,
    ) + " AND window_start_unix <= "@ + decimal_int(window_until(f) as int) + ignore_clause(ignore)
        + shared_filters_clause(f) + " ORDER BY window_start_unix DESC LIMIT "@ + decimal_nat(
        row_limit(f, spot_limit) as nat,
    )
}

/// Build the map-marker query for `filter` on `table`.
pub fn map_spots_sql(
    filter: &SpotFilter,
    table: &str,
    default_since: i64,
    ignore_callsigns: &[String],
    spot_limit: u32,
) -> (sql: String)
    ensures
        sql@ == map_spots_sql_spec(
            filter@,
            table@,
            default_since,
            str_views(ignore_callsigns@),
            spot_limit,
        ),
{
    let since = match filter.since_unix {
        Some(s) => s,
        None => default_since,
    };
    let until = match filter.until_unix {
        Some(u) => u,
        None => i64::MAX,
    };
    let limit = limit_of(filter, spot_limit);
    let mut sql = String::new();
    sql.append("SELECT window_start_unix, callsign, grid, freq_hz, snr_db, power_dbm FROM ");
    sql.append(table);
    sql.append(" WHERE grid != '' AND window_start_unix >= ");
    push_i64(&mut sql, since);
    sql.append(" AND window_start_unix <= ");
    push_i64(&mut sql, until);
    append_ignore_callsigns(&mut sql, ignore_callsigns);
    append_shared_filters(&mut sql, filter);
    sql.append(" ORDER BY window_start_unix DESC LIMIT ");
    push_u64(&mut sql, limit as u64);
    sql
}

/// The clause restricting to spots with a grid, when the filter asks for it.
pub open spec fn grid_only_clause(f: SpotFilterView) -> Seq<char> {
    if f.grid_only == Some(true) {
        " AND grid != ''"@
    } else {
        Seq::empty()
    }
}

/// The row offset of a query: the filter's, or 0.
pub open spec fn row_offset(f: SpotFilterView) -> u32 {
    match f.offset {
        Some(o) => o,
        None => 0,
    }
}

/// SQL of the full spot-record query, newest first, paginated.
pub open spec fn spots_sql_spec(
    f: SpotFilterView,
    table: Seq<char>,
    default_since: i64,
    ignore: Seq<Seq<char>>,
    spot_limit: u32,
) -> Seq<char> {
    "SELECT window_start_unix, time_utc, snr_db, dt_sec, freq_hz, message, callsign, grid, power_dbm, drift, sync_quality, npass, osd_pass, nhardmin, decode_cycles, candidates, nfano FROM "@
        + table + " WHERE window_start_unix >= "@ + decimal_int(
        window_since(f, default_since) as int,
    ) + " AND window_start_unix <= "@ + decimal_int(window_until(f) as int) + grid_only_clause(f)
        + ignore_clause(ignore) + shared_filters_clause(f)
        + " ORDER BY window_start_unix DESC LIMIT "@ + decimal_nat(row_limit(f, spot_limit) as nat)
        + " OFFSET "@ + decimal_nat(row_offset(f) as nat)
}

/// Build the full spot-record query for `filter` on `table`.
pub fn spots_sql(
    filter: &SpotFilter,
    table: &str,
    default_since: i64,
    ignore_callsigns: &[String],
    spot_limit: u32,
) -> (sql: String)
    ensures
        sql@ == spots_sql_spec(
            filter@,
            table@,
            default_since,
            str_views(ignore_callsigns@),
            spot_limit,
        ),
{
    let since = match filter.since_unix {
        Some(s) => s,
        None => default_since,
    };
    let until = match filter.until_unix {
        Some(u) => u,
        None => i64::MAX,
    };
    let limit = limit_of(filter, spot_limit);
    let offset = match filter.offset {
        Some(o) => o,
        None => 0,
    };
    let mut sql = String::new();
    sql.append(
        "SELECT window_start_unix, time_utc, snr_db, dt_sec, freq_hz, message, callsign, grid, power_dbm, drift, sync_quality, npass, osd_pass, nhardmin, decode_cycles, candidates, nfano FROM ",
    );
    sql.append(table);
    sql.append(" WHERE window_start_unix >= ");
    push_i64(&mut sql, since);
    sql.append(" AND window_start_unix <= ");
    push_i64(&mut sql, until);
    let ghost before_grid = sql@;
    let grid_only = match filter.grid_only {
        Some(g) => g,
        None => false,
    };
    if grid_only {
        sql.append(" AND grid != ''");
    }
    proof {
        if !grid_only {
            assert(before_grid + Seq::<char>::empty() == before_grid);
        }
        assert(sql@ == before_grid + grid_only_clause(filter@));
    }
    append_ignore_callsigns(&mut sql, ignore_callsigns);
    append_shared_filters(&mut sql, filter);
    sql.append(" ORDER BY window_start_unix DESC LIMIT ");
    push_u64(&mut sql, limit as u64);
    sql.append(" OFFSET ");
    push_u64(&mut sql, offset as u64);
    sql
}

/// The "grid spots only" box restricts the spot table exactly when it is
/// checked: unchecked (`Some(false)`) gives the same query as no setting at
/// all, and checked (`Some(true)`) inserts exactly `" AND grid != ''"` into
/// that query, leaving the rest as it was.
pub proof fn lemma_grid_only_restricts_exactly_when_checked(
    f: SpotFilterView,
    table: Seq<char>,
    default_since: i64,
    ignore: Seq<Seq<char>>,
    spot_limit: u32,
)
    ensures
        spots_sql_spec(
            SpotFilterView { grid_only: Some(false), ..f },
            table,
            default_since,
            ignore,
            spot_limit,
        ) == spots_sql_spec(
            SpotFilterView { grid_only: None, ..f },
            table,
            default_since,
            ignore,
            spot_limit,
        ),
        exists|p: Seq<char>, q: Seq<char>|
            #![trigger p + q]
            spots_sql_spec(
                SpotFilterView { grid_only: None, ..f },
                table,
                default_since,
                ignore,
                spot_limit,
            ) == p + q && spots_sql_spec(
                SpotFilterView { grid_only: Some(true), ..f },
                table,
                default_since,
                ignore,
                spot_limit,
            ) == p + " AND grid != ''"@ + q,
{
    let f_none = SpotFilterView { grid_only: None, ..f };
    let f_off = SpotFilterView { grid_only: Some(false), ..f };
    let f_on = SpotFilterView { grid_only: Some(true), ..f };
    let p = "SELECT window_start_unix, time_utc, snr_db, dt_sec, freq_hz, message, callsign, grid, power_dbm, drift, sync_quality, npass, osd_pass, nhardmin, decode_cycles, candidates, nfano FROM "@
        + table + " WHERE window_start_unix >= "@ + decimal_int(
        window_since(f, default_since) as int,
    ) + " AND window_start_unix <= "@ + decimal_int(window_until(f) as int);
    let t1 = ignore_clause(ignore);
    let t2 = shared_filters_clause(f);
    let t3 = " ORDER BY window_start_unix DESC LIMIT "@;
    let t4 = decimal_nat(row_limit(f, spot_limit) as nat);
    let t5 = " OFFSET "@;
    let t6 = decimal_nat(row_offset(f) as nat);
    let q = ((((t1 + t2) + t3) + t4) + t5) + t6;
    assert(shared_filters_clause(f_none) == t2);
    assert(shared_filters_clause(f_off) == t2);
    assert(shared_filters_clause(f_on) == t2);
    assert(spots_sql_spec(f_none, table, default_since, ignore, spot_limit) == (((((((p
        + Seq::<char>::empty()) + t1) + t2) + t3) + t4) + t5) + t6));
    assert(spots_sql_spec(f_off, table, default_since, ignore, spot_limit) == (((((((p
        + Seq::<char>::empty()) + t1) + t2) + t3) + t4) + t5) + t6));
    assert(spots_sql_spec(f_on, table, default_since, ignore, spot_limit) == (((((((p
        + " AND grid != ''"@) + t1) + t2) + t3) + t4) + t5) + t6));
    assert(p + Seq::<char>::empty() =~= p);
    lemma_regroup(p, t1, t2, t3, t4, t5, t6);
    lemma_regroup(p + " AND grid != ''"@, t1, t2, t3, t4, t5, t6);
}

/// Regrouping a left-nested concatenation after its first part.
proof fn lemma_regroup(
    x: Seq<char>,
    t1: Seq<char>,
    t2: Seq<char>,
    t3: Seq<char>,
    t4: Seq<char>,
    t5: Seq<char>,
    t6: Seq<char>,
)
    ensures
        ((((((x + t1) + t2) + t3) + t4) + t5) + t6) == x + (((((t1 + t2) + t3) + t4) + t5) + t6),
{
    assert(((((((x + t1) + t2) + t3) + t4) + t5) + t6) =~= x + (((((t1 + t2) + t3) + t4) + t5)
        + t6));
}

/// A callsign filter value is a prefix match, negated exactly when the value
/// starts with `!`: a value `v` without `!` whose sanitised text `s` is not
/// empty gives `" AND upper(callsign) LIKE upper('s%')"`, and `"!" + w`
/// gives `" AND upper(callsign) NOT LIKE upper('s%')"` for the sanitised
/// text `s` of `w`; a value that sanitises to nothing adds no clause.
pub proof fn lemma_callsign_clause_negated_only_by_bang(v: Seq<char>)
    ensures
        (v.len() == 0 || v[0] != '!') && sanitised_callsign(v).len() > 0 ==> callsign_clause(
            Some(v),
        ) == " AND upper(callsign) LIKE upper('"@ + sanitised_callsign(v) + "%')"@,
        (v.len() > 0 && v[0] == '!') && sanitised_callsign(v.drop_first()).len() > 0
            ==> callsign_clause(Some(v)) == " AND upper(callsign) NOT LIKE upper('"@
            + sanitised_callsign(v.drop_first()) + "%')"@,
        (v.len() == 0 || v[0] != '!') && sanitised_callsign(v).len() == 0 ==> callsign_clause(
            Some(v),
        ) == Seq::<char>::empty(),
        callsign_clause(None) == Seq::<char>::empty(),
{
    reveal_strlit(" AND upper(callsign) ");
    reveal_strlit("LIKE upper('");
    reveal_strlit("NOT ");
    reveal_strlit(" AND upper(callsign) LIKE upper('");
    reveal_strlit(" AND upper(callsign) NOT LIKE upper('");
    if (v.len() == 0 || v[0] != '!') && sanitised_callsign(v).len() > 0 {
        assert(" AND upper(callsign) "@ + Seq::<char>::empty() + "LIKE upper('"@
            + sanitised_callsign(v) + "%')"@ =~= " AND upper(callsign) LIKE upper('"@
            + sanitised_callsign(v) + "%')"@);
    }
    if (v.len() > 0 && v[0] == '!') && sanitised_callsign(v.drop_first()).len() > 0 {
        assert(" AND upper(callsign) "@ + "NOT "@ + "LIKE upper('"@ + sanitised_callsign(
            v.drop_first(),
        ) + "%')"@ =~= " AND upper(callsign) NOT LIKE upper('"@ + sanitised_callsign(
            v.drop_first(),
        ) + "%')"@);
    }
}

/// A grid filter value is a case-insensitive prefix match, negated exactly
/// when the value starts with `!`, as for callsigns.
pub proof fn lemma_grid_clause_negated_only_by_bang(v: Seq<char>)
    ensures
        (v.len() == 0 || v[0] != '!') && sanitised_locator(v).len() > 0 ==> grid_clause(Some(v))
            == " AND upper(grid) LIKE '"@ + ascii_upper_seq(sanitised_locator(v)) + "%'"@,
        (v.len() > 0 && v[0] == '!') && sanitised_locator(v.drop_first()).len() > 0
            ==> grid_clause(Some(v)) == " AND upper(grid) NOT LIKE '"@ + ascii_upper_seq(
            sanitised_locator(v.drop_first()),
        ) + "%'"@,
        grid_clause(None) == Seq::<char>::empty(),
{
    reveal_strlit(" AND upper(grid) ");
    reveal_strlit("LIKE '");
    reveal_strlit("NOT ");
    reveal_strlit(" AND upper(grid) LIKE '");
    reveal_strlit(" AND upper(grid) NOT LIKE '");
    if (v.len() == 0 || v[0] != '!') && sanitised_locator(v).len() > 0 {
        assert(" AND upper(grid) "@ + Seq::<char>::empty() + "LIKE '"@ + ascii_upper_seq(
            sanitised_locator(v),
        ) + "%'"@ =~= " AND upper(grid) LIKE '"@ + ascii_upper_seq(sanitised_locator(v)) + "%'"@);
    }
    if (v.len() > 0 && v[0] == '!') && sanitised_locator(v.drop_first()).len() > 0 {
        assert(" AND upper(grid) "@ + "NOT "@ + "LIKE '"@ + ascii_upper_seq(
            sanitised_locator(v.drop_first()),
        ) + "%'"@ =~= " AND upper(grid) NOT LIKE '"@ + ascii_upper_seq(
            sanitised_locator(v.drop_first()),
        ) + "%'"@);
    }
}

/// SQL of the aggregate statistics query over a window.
pub open spec fn stats_sql_spec(
    table: Seq<char>,
    since_unix: i64,
    until_unix: i64,
    ignore: Seq<Seq<char>>,
) -> Seq<char> {
    "SELECT count()                         AS total_spots, uniqExact(callsign)             AS unique_callsigns, uniqExactIf(grid, grid != '')   AS unique_grids, min(window_start_unix)          AS oldest_unix, max(window_start_unix)          AS newest_unix FROM "@
        + table + " WHERE window_start_unix >= "@ + decimal_int(since_unix as int)
        + " AND window_start_unix <= "@ + decimal_int(until_unix as int) + ignore_clause(ignore)
}

/// Build the aggregate statistics query (total spots, unique callsigns,
/// unique grids, time range) over a window.
pub fn stats_sql(table: &str, since_unix: i64, until_unix: i64, ignore_callsigns: &[String]) -> (sql:
    String)
    ensures
        sql@ == stats_sql_spec(table@, since_unix, until_unix, str_views(ignore_callsigns@)),
{
    let mut sql = String::new();
    sql.append(
        "SELECT count()                         AS total_spots, uniqExact(callsign)             AS unique_callsigns, uniqExactIf(grid, grid != '')   AS unique_grids, min(window_start_unix)          AS oldest_unix, max(window_start_unix)          AS newest_unix FROM ",
    );
    sql.append(table);
    sql.append(" WHERE window_start_unix >= ");
    push_i64(&mut sql, since_unix);
    sql.append(" AND window_start_unix <= ");
    push_i64(&mut sql, until_unix);
    append_ignore_callsigns(&mut sql, ignore_callsigns);
    sql
}

/// SQL of the per-frequency count query (frequencies rounded to 1 kHz).
pub open spec fn band_counts_sql_spec(table: Seq<char>, since_unix: i64, ignore: Seq<Seq<char>>) -> Seq<
    char,
> {
    "SELECT toFloat64(round(freq_hz / 1000) * 1000) AS freq_hz, count() AS cnt FROM "@ + table
        + " WHERE window_start_unix >= "@ + decimal_int(since_unix as int) + ignore_clause(ignore)
        + " GROUP BY freq_hz ORDER BY freq_hz"@
}

/// Build the query that counts spots per frequency rounded to 1 kHz.
pub fn band_counts_sql(table: &str, since_unix: i64, ignore_callsigns: &[String]) -> (sql: String)
    ensures
        sql@ == band_counts_sql_spec(table@, since_unix, str_views(ignore_callsigns@)),
{
    let mut sql = String::new();
    sql.append(
        "SELECT toFloat64(round(freq_hz / 1000) * 1000) AS freq_hz, count() AS cnt FROM ",
    );
    sql.append(table);
    sql.append(" WHERE window_start_unix >= ");
    push_i64(&mut sql, since_unix);
    append_ignore_callsigns(&mut sql, ignore_callsigns);
    sql.append(" GROUP BY freq_hz ORDER BY freq_hz");
    sql
}

/// SQL of the callsign autocomplete query, or `None` when the sanitised
/// prefix is empty (no query is made and the answer is empty).
pub open spec fn callsign_suggestions_sql_spec(
    table: Seq<char>,
    prefix: Seq<char>,
    ignore: Seq<Seq<char>>,
) -> Option<Seq<char>> {
    let safe = sanitised_callsign(prefix);
    if safe.len() == 0 {
        None
    } else {
        Some(
            "SELECT DISTINCT callsign FROM "@ + table + " WHERE upper(callsign) LIKE '"@
                + ascii_upper_seq(safe) + "%'"@ + ignore_clause(ignore)
                + " ORDER BY callsign LIMIT 20"@,
        )
    }
}

/// Build the query for up to 20 callsigns starting with `prefix`
/// (case-insensitive), or `None` when the sanitised prefix is empty.
pub fn callsign_suggestions_sql(table: &str, prefix: &str, ignore_callsigns: &[String]) -> (r:
    Option<String>)
    ensures
        match r {
            Some(sql) => callsign_suggestions_sql_spec(
                table@,
                prefix@,
                str_views(ignore_callsigns@),
            ) == Some(sql@),
            None => callsign_suggestions_sql_spec(
                table@,
                prefix@,
                str_views(ignore_callsigns@),
            ) is None,
        },
{
    let safe = sanitise_callsign(prefix);
    if safe.as_str().unicode_len() == 0 {
        return None;
    }
    let upper = to_ascii_upper(safe.as_str());
    let mut sql = String::new();
    sql.append("SELECT DISTINCT callsign FROM ");
    sql.append(table);
    sql.append(" WHERE upper(callsign) LIKE '");
    sql.append(upper.as_str());
    sql.append("%'");
    append_ignore_callsigns(&mut sql, ignore_callsigns);
    sql.append(" ORDER BY callsign LIMIT 20");
    Some(sql)
}

/// Most spots that one live-stream event carries.
pub const NEW_SPOTS_CAP: u32 = 500;

/// Row limit of the live-stream query: the server's spot limit, but never
/// more than [`NEW_SPOTS_CAP`].
pub open spec fn new_spots_limit(spot_limit: u32) -> u32 {
    if spot_limit < NEW_SPOTS_CAP {
        spot_limit
    } else {
        NEW_SPOTS_CAP
    }
}

/// SQL of the live-stream query: spots with a grid newer than `after_unix`,
/// newest first, at most `new_spots_limit(spot_limit)` of them.
pub open spec fn new_spots_sql_spec(
    table: Seq<char>,
    after_unix: i64,
    ignore: Seq<Seq<char>>,
    spot_limit: u32,
) -> Seq<char> {
    "SELECT window_start_unix, callsign, grid, freq_hz, snr_db, power_dbm FROM "@ + table
        + " WHERE grid != '' AND window_start_unix > "@ + decimal_int(after_unix as int)
        + ignore_clause(ignore) + " ORDER BY window_start_unix DESC LIMIT "@ + decimal_nat(
        new_spots_limit(spot_limit) as nat,
    )
}

/// Build the query for spots newer than `after_unix`, newest first, at most
/// `spot_limit` of them and never more than 500, to keep each live-stream
/// event small.
pub fn new_spots_sql(table: &str, after_unix: i64, ignore_callsigns: &[String], spot_limit: u32) -> (sql:
    String)
    ensures
        sql@ == new_spots_sql_spec(table@, after_unix, str_views(ignore_callsigns@), spot_limit),
{
    let mut sql = String::new();
    sql.append("SELECT window_start_unix, callsign, grid, freq_hz, snr_db, power_dbm FROM ");
    sql.append(table);
    sql.append(" WHERE grid != '' AND window_start_unix > ");
    push_i64(&mut sql, after_unix);
    append_ignore_callsigns(&mut sql, ignore_callsigns);
    sql.append(" ORDER BY window_start_unix DESC LIMIT ");
    let limit = if spot_limit < NEW_SPOTS_CAP {
        spot_limit
    } else {
        NEW_SPOTS_CAP
    };
    push_u64(&mut sql, limit as u64);
    sql
}

// ---------------------------------------------------------------------------
// Per-band counts
// ---------------------------------------------------------------------------

/// One row of the per-frequency count query: a frequency (rounded to 1 kHz
/// by the query) and the number of spots on it.
#[derive(Debug, Clone, Copy, PartialEq, Eq, Structural)]
pub struct FreqCount {
    pub freq_hz: u64,
    pub cnt: u64,
}

/// Total spot count of the rows whose frequency falls on band `j`.
pub open spec fn band_total(rows: Seq<FreqCount>, j: int) -> int
    decreases rows.len(),
{
    if rows.len() == 0 {
        0
    } else {
        band_total(rows.drop_last(), j) + (if find_band_index(rows.last().freq_hz as int) == Some(
            j,
        ) {
            rows.last().cnt as int
        } else {
            0
        })
    }
}

/// `(band index, total)` for each of the first `n` bands, in canonical order,
/// keeping only bands with at least one spot.
pub open spec fn band_summary(rows: Seq<FreqCount>, n: int) -> Seq<(int, int)>
    decreases n,
{
    if n <= 0 {
        Seq::empty()
    } else {
        let prev = band_summary(rows, n - 1);
        let t = band_total(rows, n - 1);
        if t > 0 {
            prev.push((n - 1, t))
        } else {
            prev
        }
    }
}

proof fn lemma_band_total_prefix(rows: Seq<FreqCount>, k: int, j: int)
    requires
        0 <= k <= rows.len(),
    ensures
        0 <= band_total(rows.take(k), j) <= band_total(rows, j),
    decreases rows.len() - k,
{
    if k < rows.len() {
        lemma_band_total_prefix(rows, k + 1, j);
        lemma_band_total_nonneg(rows.take(k), j);
        assert(rows.take(k + 1).drop_last() == rows.take(k));
        assert(band_total(rows.take(k + 1), j) >= band_total(rows.take(k), j));
    } else {
        assert(rows.take(k) == rows);
        lemma_band_total_nonneg(rows, j);
    }
}

proof fn lemma_band_total_nonneg(rows: Seq<FreqCount>, j: int)
    ensures
        band_total(rows, j) >= 0,
    decreases rows.len(),
{
    if rows.len() > 0 {
        lemma_band_total_nonneg(rows.drop_last(), j);
    }
}

/// Spot counts per standard band: each row's count goes to the band its
/// frequency falls on (rows on no band are dropped), and the bands with at
/// least one spot are listed in canonical band order.
pub fn band_counts_from_rows(rows: &[FreqCount]) -> (out: Vec<BandInfo>)
    requires
        forall|j: int| 0 <= j < BAND_COUNT ==> #[trigger] band_total(rows@, j) <= u64::MAX,
    ensures
        out.len() == band_summary(rows@, BAND_COUNT as int).len(),
        forall|k: int|
            0 <= k < out.len() ==> is_band_info(
                #[trigger] out@[k],
                band_summary(rows@, BAND_COUNT as int)[k].0,
                band_summary(rows@, BAND_COUNT as int)[k].1,
            ),
{
    let mut counts: Vec<u64> = Vec::new();
    let mut b: usize = 0;
    while b < BAND_COUNT
        invariant
            b <= BAND_COUNT,
            counts.len() == b,
            forall|j: int| 0 <= j < b ==> counts@[j] == 0,
        decreases BAND_COUNT - b,
    {
        counts.push(0);
        b = b + 1;
    }
    let mut i: usize = 0;
    while i < rows.len()
        invariant
            i <= rows.len(),
            counts.len() == BAND_COUNT,
            forall|j: int| 0 <= j < BAND_COUNT ==> #[trigger] band_total(rows@, j) <= u64::MAX,
            forall|j: int|
                0 <= j < BAND_COUNT ==> counts@[j] == band_total(#[trigger] rows@.take(i as int), j),
        decreases rows.len() - i,
    {
        let row = rows[i];
        let pos = find_band_position(row.freq_hz);
        proof {
            assert(rows@.take(i + 1).drop_last() == rows@.take(i as int));
            assert(rows@.take(i + 1).last() == row);
        }
        match pos {
            Some(j) => {
                proof {
                    lemma_band_total_prefix(rows@, i + 1, j as int);
                }
                let c = counts[j] + row.cnt;
                counts.set(j, c);
                proof {
                    assert forall|k: int| 0 <= k < BAND_COUNT implies counts@[k] == band_total(
                        #[trigger] rows@.take(i + 1),
                        k,
                    ) by {
                        if k != j {
                            assert(band_total(rows@.take(i + 1), k) == band_total(
                                rows@.take(i as int),
                                k,
                            ));
                        }
                    }
                }
            },
            None => {
                proof {
                    assert forall|k: int| 0 <= k < BAND_COUNT implies counts@[k] == band_total(
                        #[trigger] rows@.take(i + 1),
                        k,
                    ) by {
                        assert(band_total(rows@.take(i + 1), k) == band_total(
                            rows@.take(i as int),
                            k,
                        ));
                    }
                }
            },
        }
        i = i + 1;
    }
    proof {
        assert(rows@.take(rows@.len() as int) == rows@);
    }
    let mut out: Vec<BandInfo> = Vec::new();
    let mut j: usize = 0;
    while j < BAND_COUNT
        invariant
            j <= BAND_COUNT,
            counts.len() == BAND_COUNT,
            forall|k: int| 0 <= k < BAND_COUNT ==> counts@[k] == band_total(rows@, k),
            out.len() == band_summary(rows@, j as int).len(),
            forall|k: int|
                0 <= k < out.len() ==> is_band_info(
                    #[trigger] out@[k],
                    band_summary(rows@, j as int)[k].0,
                    band_summary(rows@, j as int)[k].1,
                ),
        decreases BAND_COUNT - j,
    {
        let c = counts[j];
        if c > 0 {
            out.push(band_info(j, c));
        }
        proof {
            let prev = band_summary(rows@, j as int);
            assert(band_summary(rows@, j + 1) == (if band_total(rows@, j as int) > 0 {
                prev.push((j as int, band_total(rows@, j as int)))
            } else {
                prev
            }));
        }
        j = j + 1;
    }
    out
}

/// The per-band summary lists each band at most once, in canonical band
/// order, and only bands with at least one spot.
pub proof fn lemma_band_summary_ordered_positive(rows: Seq<FreqCount>, n: int)
    requires
        0 <= n <= BAND_COUNT,
    ensures
        forall|k: int|
            0 <= k < band_summary(rows, n).len() ==> {
                &&& 0 <= (#[trigger] band_summary(rows, n)[k]).0 < n
                &&& band_summary(rows, n)[k].1 > 0
                &&& band_summary(rows, n)[k].1 == band_total(rows, band_summary(rows, n)[k].0)
            },
        forall|k: int, l: int|
            0 <= k < l < band_summary(rows, n).len() ==> (#[trigger] band_summary(rows, n)[k]).0
                < (#[trigger] band_summary(rows, n)[l]).0,
    decreases n,
{
    if n > 0 {
        lemma_band_summary_ordered_positive(rows, n - 1);
        let prev = band_summary(rows, n - 1);
        let t = band_total(rows, n - 1);
        let cur = band_summary(rows, n);
        if t > 0 {
            assert(cur == prev.push((n - 1, t)));
            assert forall|k: int| 0 <= k < prev.len() implies cur[k] == prev[k] by {}
        } else {
            assert(cur == prev);
        }
    }
}

} // verus!
