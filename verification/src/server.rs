//! Decisions of the server's request handlers and of the background poller
//! that feeds the live stream.
use vstd::prelude::*;

use crate::cache::{round_down_to_minute, roundable, QueryCache};

verus! {

/// Seconds per hour.
pub const SECS_PER_HOUR: i64 = 3_600;

/// The default window start: `time_window_hours` before `now`.
pub open spec fn default_since_spec(now: i64, time_window_hours: u32) -> int {
    now - time_window_hours * 3600
}

/// Start of the default time window: `time_window_hours` hours before `now`.
pub fn default_since(now: i64, time_window_hours: u32) -> (r: i64)
    requires
        default_since_spec(now, time_window_hours) >= i64::MIN,
    ensures
        r == default_since_spec(now, time_window_hours),
{
    now - (time_window_hours as i64) * SECS_PER_HOUR
}

/// Cache key of a statistics request: both window ends rounded down to the
/// minute.
pub fn stats_cache_key(since_unix: i64, until_unix: i64) -> (k: (i64, i64))
    requires
        roundable(since_unix as int),
        roundable(until_unix as int),
    ensures
        k == (round_down_to_minute(since_unix as int) as i64, round_down_to_minute(
            until_unix as int,
        ) as i64),
{
    (QueryCache::<(), (), ()>::round_ts(since_unix), QueryCache::<(), (), ()>::round_ts(until_unix))
}

/// The statistics window that the page asks for: the filter's window, or
/// the last hour up to `now` where the filter leaves an end open.
pub fn stats_window(since_unix: Option<i64>, until_unix: Option<i64>, now: i64) -> (w: (i64, i64))
    requires
        since_unix is None ==> now >= i64::MIN + SECS_PER_HOUR,
    ensures
        w.0 == match since_unix {
            Some(s) => s as int,
            None => now - SECS_PER_HOUR,
        },
        w.1 == match until_unix {
            Some(u) => u,
            None => now,
        },
{
    let since = match since_unix {
        Some(s) => s,
        None => now - SECS_PER_HOUR,
    };
    let until = match until_unix {
        Some(u) => u,
        None => now,
    };
    (since, until)
}

// ---------------------------------------------------------------------------
// Live-stream poller
// ---------------------------------------------------------------------------

/// How far back the poller looks when the server starts, in seconds.
pub const POLL_LOOKBACK_SECS: i64 = 120;

/// Interval between two polls for new spots, in seconds.
pub const POLL_INTERVAL_SECS: u64 = 120;

/// Where the poller starts: spots newer than two minutes before `now`.
pub fn initial_watermark(now: i64) -> (w: i64)
    requires
        now >= i64::MIN + POLL_LOOKBACK_SECS,
    ensures
        w == now - POLL_LOOKBACK_SECS,
{
    now - POLL_LOOKBACK_SECS
}

/// The largest of the window starts of a non-empty list of spots.
pub open spec fn max_start(starts: Seq<i64>) -> i64
    decreases starts.len(),
{
    if starts.len() <= 1 {
        starts[0]
    } else {
        let m = max_start(starts.drop_last());
        if starts.last() > m {
            starts.last()
        } else {
            m
        }
    }
}

/// What one poll gives: the next watermark, and whether the new spots are
/// broadcast.  No new spots: the watermark stays and nothing is sent.  New
/// spots: the watermark moves to the newest spot and the spots are sent.
pub open spec fn poll_outcome(watermark: i64, starts: Seq<i64>) -> (i64, bool) {
    if starts.len() == 0 {
        (watermark, false)
    } else {
        (max_start(starts), true)
    }
}

/// The poller's decision after a successful query that returned spots with
/// these window starts.
pub fn poll_step(watermark: i64, starts: &[i64]) -> (r: (i64, bool))
    ensures
        r == poll_outcome(watermark, starts@),
{
    if starts.len() == 0 {
        return (watermark, false);
    }
    let mut m = starts[0];
    let mut i: usize = 1;
    while i < starts.len()
        invariant
            1 <= i <= starts.len(),
            m == max_start(starts@.take(i as int)),
        decreases starts.len() - i,
    {
        proof {
            assert(starts@.take(i + 1).drop_last() == starts@.take(i as int));
        }
        if starts[i] > m {
            m = starts[i];
        }
        i = i + 1;
    }
    proof {
        assert(starts@.take(starts.len() as int) == starts@);
    }
    (m, true)
}

proof fn lemma_max_start_is_member_and_bound(starts: Seq<i64>)
    requires
        starts.len() >= 1,
    ensures
        exists|i: int| 0 <= i < starts.len() && starts[i] == max_start(starts),
        forall|i: int| 0 <= i < starts.len() ==> starts[i] <= max_start(starts),
    decreases starts.len(),
{
    if starts.len() > 1 {
        lemma_max_start_is_member_and_bound(starts.drop_last());
        let d = starts.drop_last();
        let j = choose|j: int| 0 <= j < d.len() && d[j] == max_start(d);
        if starts.last() > max_start(d) {
            assert(starts[starts.len() - 1] == max_start(starts));
        } else {
            assert(starts[j] == max_start(starts));
        }
        assert forall|i: int| 0 <= i < starts.len() implies starts[i] <= max_start(starts) by {
            if i < d.len() {
                assert(starts[i] == d[i]);
            }
        }
    } else {
        assert(starts[0] == max_start(starts));
    }
}

/// The watermark never moves backwards when the spots are those newer than
/// it (as the poll query asks), and after a poll with spots it is the start
/// of one of them and no earlier than any; so no spot is sent twice.
pub proof fn lemma_watermark_advances(watermark: i64, starts: Seq<i64>)
    requires
        forall|i: int| 0 <= i < starts.len() ==> starts[i] > watermark,
    ensures
        poll_outcome(watermark, starts).0 >= watermark,
        starts.len() > 0 ==> poll_outcome(watermark, starts).0 > watermark,
        starts.len() > 0 ==> forall|i: int|
            0 <= i < starts.len() ==> starts[i] <= poll_outcome(watermark, starts).0,
        starts.len() > 0 ==> exists|i: int|
            0 <= i < starts.len() && starts[i] == poll_outcome(watermark, starts).0,
{
    if starts.len() > 0 {
        lemma_max_start_is_member_and_bound(starts);
    }
}

} // verus!
