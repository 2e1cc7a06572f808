//! The shared snapshot of sensor readings and its commit protocol.
//!
//! One background poller is the only writer: on every successful fetch it
//! replaces the whole reading list. The highlight bookkeeping
//! (`last_update_time`, `previous_data_len`) moves only when the list grew,
//! and then both fields move together, in the same call.

use vstd::prelude::*;

verus! {

/// One decoded sensor sample.
///
/// The four measurements are fixed-point numbers in hundredths of a unit
/// (`2350` means `23.50`); the source data mixes integer and fractional
/// renderings, and hundredths hold both without loss at the precision the
/// dashboard displays. `timestamp` is kept as the source text
/// (`YYYY-MM-DD HH:MM:SS`), which the render side shows verbatim.
pub struct SensorData {
    pub timestamp: String,
    pub mac: String,
    pub temperature: i64,
    pub moisture: i64,
    pub light: i64,
    pub conductivity: i64,
}

/// The mathematical value of a [`SensorData`]: text as character sequences,
/// measurements as unbounded integers (still in hundredths).
pub ghost struct SensorDataV {
    pub timestamp: Seq<char>,
    pub mac: Seq<char>,
    pub temperature: int,
    pub moisture: int,
    pub light: int,
    pub conductivity: int,
}

impl View for SensorData {
    type V = SensorDataV;

    open spec fn view(&self) -> SensorDataV {
        SensorDataV {
            timestamp: self.timestamp@,
            mac: self.mac@,
            temperature: self.temperature as int,
            moisture: self.moisture as int,
            light: self.light as int,
            conductivity: self.conductivity as int,
        }
    }
}

/// The in-memory snapshot shared between the poller (single writer) and the
/// render pass (reader).
///
/// - `data` is the reading list in source (ascending-arrival) order; the
///   render pass reverses it for display, so ascending order here is what the
///   highlight-index arithmetic in [`crate::render`] counts on.
/// - `last_update_time` is the instant (milliseconds on a monotonic clock) of
///   the last commit that grew the list; `None` until the first growth.
/// - `previous_data_len` is the list length just before that growth; display
///   rows whose ascending index reaches it are the ones that arrived with it.
pub struct AppState {
    pub data: Vec<SensorData>,
    pub last_update_time: Option<u64>,
    pub previous_data_len: usize,
}

impl AppState {
    /// The empty snapshot the process starts from: no readings, no growth seen.
    pub fn new() -> (state: Self)
        ensures
            state.data@ == Seq::<SensorData>::empty(),
            state.last_update_time is None,
            state.previous_data_len == 0,
    {
        AppState { data: Vec::new(), last_update_time: None, previous_data_len: 0 }
    }

    /// Commits one successfully fetched batch: the new list replaces the old
    /// one wholesale. If and only if the list grew, `previous_data_len`
    /// becomes the old length and `last_update_time` becomes `now_ms` — both
    /// in this one call, so no reader of the snapshot ever sees one moved
    /// without the other. A shrinking or same-size batch leaves both
    /// untouched: only growth resets the highlight clock.
    pub fn commit(&mut self, new_data: Vec<SensorData>, now_ms: u64)
        ensures
            final(self).data@ == new_data@,
            new_data@.len() > old(self).data@.len() ==> {
                &&& final(self).previous_data_len == old(self).data@.len()
                &&& final(self).last_update_time == Some(now_ms)
            },
            new_data@.len() <= old(self).data@.len() ==> {
                &&& final(self).previous_data_len == old(self).previous_data_len
                &&& final(self).last_update_time == old(self).last_update_time
            },
    {
        let old_len = self.data.len();
        self.data = new_data;
        if self.data.len() > old_len {
            self.previous_data_len = old_len;
            self.last_update_time = Some(now_ms);
        }
    }
}

} // verus!
