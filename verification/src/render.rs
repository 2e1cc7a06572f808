//! The render pass's arithmetic: which display row shows which reading,
//! which rows are highlighted as new, and the refresh countdown.
//!
//! Everything here is a pure computation over one snapshot of
//! [`crate::state::AppState`] and the current instant; the drawing itself
//! (table widgets, styles) happens outside the crate. The one state change the
//! countdown implies — raising the manual-refresh signal on expiry — is kept
//! out of the row/countdown computations and owned by [`refresh_tick`].

use vstd::prelude::*;

use crate::signal::RefreshSignal;
use crate::state::AppState;

verus! {

/// How long a grown row stays highlighted, in milliseconds.
pub const HIGHLIGHT_WINDOW_MS: u64 = 3000;

/// The UI countdown interval: when this much time passes without growth, a
/// manual refresh is raised. In milliseconds.
pub const REFRESH_INTERVAL_MS: u64 = 10000;

/// The poller's own fixed fetch interval, in milliseconds.
pub const POLL_INTERVAL_MS: u64 = 300000;

/// A row is "new" iff the list has grown at least once (`last_update_time` is
/// set), the row's ascending-order index reaches the length the list had
/// before that growth, and the growth is younger than the highlight window.
pub open spec fn spec_row_is_new(
    index: int,
    previous_data_len: int,
    last_update_time: Option<u64>,
    now_ms: u64,
    window_ms: u64,
) -> bool {
    match last_update_time {
        Some(t) => index >= previous_data_len && now_ms - t < window_ms,
        None => false,
    }
}

/// Decides the highlight for one row, by [`spec_row_is_new`].
pub fn row_is_new(
    index: usize,
    previous_data_len: usize,
    last_update_time: Option<u64>,
    now_ms: u64,
    window_ms: u64,
) -> (is_new: bool)
    requires
        last_update_time matches Some(t) ==> t <= now_ms,
    ensures
        is_new == spec_row_is_new(
            index as int,
            previous_data_len as int,
            last_update_time,
            now_ms,
            window_ms,
        ),
{
    match last_update_time {
        Some(t) => index >= previous_data_len && now_ms - t < window_ms,
        None => false,
    }
}

/// Plans one frame of the table: for each display row, from the top down, the
/// ascending-order index of the reading it shows and whether it is
/// highlighted. Readings are displayed most recent first, so display row `i`
/// shows the reading at ascending index `len - 1 - i`.
pub fn display_rows(state: &AppState, now_ms: u64, window_ms: u64) -> (rows: Vec<(usize, bool)>)
    requires
        state.last_update_time matches Some(t) ==> t <= now_ms,
    ensures
        rows@.len() == state.data@.len(),
        forall|i: int|
            0 <= i < rows@.len() ==> #[trigger] rows@[i] == ((
            (state.data@.len() - 1 - i) as usize,
            spec_row_is_new(
                state.data@.len() - 1 - i,
                state.previous_data_len as int,
                state.last_update_time,
                now_ms,
                window_ms,
            ),
        )),
{
    let n = state.data.len();
    let mut rows: Vec<(usize, bool)> = Vec::new();
    let mut i: usize = 0;
    while i < n
        invariant
            i <= n,
            n == state.data@.len(),
            state.last_update_time matches Some(t) ==> t <= now_ms,
            rows@.len() == i,
            forall|j: int|
                0 <= j < i ==> #[trigger] rows@[j] == ((
                (n - 1 - j) as usize,
                spec_row_is_new(
                    n - 1 - j,
                    state.previous_data_len as int,
                    state.last_update_time,
                    now_ms,
                    window_ms,
                ),
            )),
        decreases n - i,
    {
        let index = n - 1 - i;
        let is_new = row_is_new(
            index,
            state.previous_data_len,
            state.last_update_time,
            now_ms,
            window_ms,
        );
        rows.push((index, is_new));
        i = i + 1;
    }
    rows
}

/// The milliseconds since the last growth; a snapshot that never grew counts
/// as exactly one full interval old, so the countdown shows the full interval
/// and is already due.
pub open spec fn spec_elapsed(last_update_time: Option<u64>, now_ms: u64, interval_ms: u64) -> int {
    match last_update_time {
        Some(t) => now_ms - t,
        None => interval_ms as int,
    }
}

/// The displayed countdown: time left until the interval elapses, or the full
/// interval once it has (the display wraps back to the start).
pub open spec fn spec_remaining(last_update_time: Option<u64>, now_ms: u64, interval_ms: u64) -> int {
    let elapsed = spec_elapsed(last_update_time, now_ms, interval_ms);
    if elapsed < interval_ms {
        interval_ms - elapsed
    } else {
        interval_ms as int
    }
}

/// Whether the countdown has run out: the elapsed time reached the interval.
pub open spec fn spec_expired(last_update_time: Option<u64>, now_ms: u64, interval_ms: u64) -> bool {
    spec_elapsed(last_update_time, now_ms, interval_ms) >= interval_ms
}

/// Computes the countdown for one frame: the remaining time to display and
/// whether the interval has expired. Pure: raising the refresh signal on
/// expiry is [`refresh_tick`]'s job.
pub fn countdown_remaining(
    last_update_time: Option<u64>,
    now_ms: u64,
    interval_ms: u64,
) -> (r: (u64, bool))
    requires
        last_update_time matches Some(t) ==> t <= now_ms,
    ensures
        r.0 == spec_remaining(last_update_time, now_ms, interval_ms),
        r.1 == spec_expired(last_update_time, now_ms, interval_ms),
{
    let elapsed: u64 = match last_update_time {
        Some(t) => now_ms - t,
        None => interval_ms,
    };
    if elapsed < interval_ms {
        (interval_ms - elapsed, false)
    } else {
        (interval_ms, true)
    }
}

/// The timer component: one tick computes the countdown and, exactly when it
/// has expired, raises the manual-refresh signal. Returns the remaining time
/// to display.
pub fn refresh_tick(
    signal: &mut RefreshSignal,
    last_update_time: Option<u64>,
    now_ms: u64,
    interval_ms: u64,
) -> (remaining: u64)
    requires
        last_update_time matches Some(t) ==> t <= now_ms,
    ensures
        remaining == spec_remaining(last_update_time, now_ms, interval_ms),
        final(signal)@ == (old(signal)@ || spec_expired(last_update_time, now_ms, interval_ms)),
{
    let (remaining, expired) = countdown_remaining(last_update_time, now_ms, interval_ms);
    if expired {
        signal.raise();
    }
    remaining
}

/// The highlight rule, stated on its own: while the last growth (at instant
/// `t`) is younger than the window, a row is marked new exactly when its
/// ascending index reaches the pre-growth length; once the window has
/// elapsed, no row is marked new — and the mark can only come back through
/// `last_update_time` moving, which only a growing fetch does.
pub proof fn law_highlight(index: int, previous_data_len: int, t: u64, now_ms: u64, window_ms: u64)
    requires
        t <= now_ms,
    ensures
        now_ms - t < window_ms ==> (spec_row_is_new(
            index,
            previous_data_len,
            Some(t),
            now_ms,
            window_ms,
        ) <==> index >= previous_data_len),
        now_ms - t >= window_ms ==> !spec_row_is_new(
            index,
            previous_data_len,
            Some(t),
            now_ms,
            window_ms,
        ),
{
}

} // verus!
