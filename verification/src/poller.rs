//! The poller's decisions: when to fetch, and what a fetch outcome does to the
//! shared snapshot. The blocking parts of the loop (the HTTP request, the
//! sleeps) live outside the crate; they feed their results into these
//! functions and obey the actions they return.

use vstd::prelude::*;

use crate::signal::RefreshSignal;
use crate::state::{AppState, SensorData};

verus! {

/// Why the poller wakes for a fetch cycle: the fixed timer, or a pending
/// manual-refresh signal. When neither is due it keeps idling.
pub enum WakeAction {
    FetchTimer,
    FetchManual,
    Sleep,
}

/// What ended a fetch attempt short of a decoded batch: the transport failed
/// (unreachable, timeout), or the response body was not JSON at all.
pub enum FetchError {
    Transport,
    Decode,
}

/// Chooses the poller's next action from what is pending. The fixed timer is
/// always preferred over a pending manual refresh: ties break toward the
/// timer.
pub fn decide_wake(timer_due: bool, manual_pending: bool) -> (action: WakeAction)
    ensures
        timer_due ==> action is FetchTimer,
        !timer_due && manual_pending ==> action is FetchManual,
        !timer_due && !manual_pending ==> action is Sleep,
{
    if timer_due {
        WakeAction::FetchTimer
    } else if manual_pending {
        WakeAction::FetchManual
    } else {
        WakeAction::Sleep
    }
}

/// One wake decision together with its signal handling: the action by
/// [`decide_wake`]'s priority, consuming the refresh signal only when the
/// manual fetch is the chosen action. A timer-due wake leaves a pending raise
/// exactly as it was, to be served at a later wake — the timer winning a tie
/// never drops the raise.
pub fn wake_step(signal: &mut RefreshSignal, timer_due: bool) -> (action: WakeAction)
    ensures
        timer_due ==> action is FetchTimer && final(signal)@ == old(signal)@,
        !timer_due && old(signal)@ ==> action is FetchManual && !final(signal)@,
        !timer_due && !old(signal)@ ==> action is Sleep && !final(signal)@,
{
    let manual = if timer_due {
        false
    } else {
        signal.consume()
    };
    decide_wake(timer_due, manual)
}

/// Decides loop termination from one polled key press: only the quit key
/// counts, any other key — or none — is ignored.
pub fn quit_requested(key: Option<char>) -> (quit: bool)
    ensures
        quit <==> key == Some('q'),
{
    match key {
        Some(c) => c == 'q',
        None => false,
    }
}

/// Classifies a decode result as a fetch outcome: a document that carried no
/// batch at all — one that was not an array — is a whole-batch decode
/// failure, which [`apply_fetch`] then treats as a no-op cycle.
pub fn decode_outcome(parsed: Option<Vec<SensorData>>) -> (outcome: Result<
    Vec<SensorData>,
    FetchError,
>)
    ensures
        match parsed {
            Some(batch) => outcome matches Ok(b) && b == batch,
            None => outcome matches Err(e) && e is Decode,
        },
{
    match parsed {
        Some(batch) => Ok(batch),
        None => Err(FetchError::Decode),
    }
}

/// Applies one fetch outcome to the snapshot. A failed fetch — transport or
/// whole-batch decode failure — is a no-op cycle: the snapshot is left exactly
/// as it was. A successful one commits by the growth rule of
/// [`AppState::commit`].
pub fn apply_fetch(state: &mut AppState, outcome: Result<Vec<SensorData>, FetchError>, now_ms: u64)
    ensures
        outcome matches Err(_) ==> {
            &&& final(state).data@ == old(state).data@
            &&& final(state).last_update_time == old(state).last_update_time
            &&& final(state).previous_data_len == old(state).previous_data_len
        },
        outcome matches Ok(batch) ==> {
            &&& final(state).data@ == batch@
            &&& batch@.len() > old(state).data@.len() ==> {
                &&& final(state).previous_data_len == old(state).data@.len()
                &&& final(state).last_update_time == Some(now_ms)
            }
            &&& batch@.len() <= old(state).data@.len() ==> {
                &&& final(state).previous_data_len == old(state).previous_data_len
                &&& final(state).last_update_time == old(state).last_update_time
            }
        },
{
    match outcome {
        Ok(batch) => state.commit(batch, now_ms),
        Err(_) => (),
    }
}

} // verus!
