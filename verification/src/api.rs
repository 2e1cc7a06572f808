//! The companion read-only endpoint's logic: filter locally stored readings to
//! the last day.
//!
//! The endpoint serves a local JSON file as an array of records keyed by the
//! source's capitalized field names (`Timestamp`, `MAC`, `Temperature`,
//! `Light`, `Moisture`, `Conductivity`). A record is served exactly when its
//! `Timestamp` field is a string in the `YYYY-MM-DD HH:MM:SS` format, names a
//! real UTC instant, and that instant is not before the cutoff the caller
//! computed (now minus twenty-four hours). The other fields default — empty
//! text, zero hundredths — when missing or of the wrong kind. Reading the
//! file, obtaining the clock and serving HTTP stay outside the crate; this
//! module turns the file's text and the cutoff into the records to serve.

use vstd::prelude::*;

use serde_json::Value;

use crate::datetime::{spec_dt_le, spec_parse_datetime, dt_le, parse_datetime, DateTime};
use crate::decode::{spec_num_field, spec_str_field};
use crate::json::{json_model, json_parsed, parse_json, value_as_array, JsonData};
use crate::state::SensorDataV;

verus! {

/// One record as the endpoint serves it: the source timestamp text, the
/// device's hardware address, and the four measurements in hundredths.
pub struct SensorData {
    pub timestamp: String,
    pub mac_address: String,
    pub temperature: i64,
    pub light: i64,
    pub moisture: i64,
    pub conductivity: i64,
}

impl View for SensorData {
    type V = SensorDataV;

    open spec fn view(&self) -> SensorDataV {
        SensorDataV {
            timestamp: self.timestamp@,
            mac: self.mac_address@,
            temperature: self.temperature as int,
            moisture: self.moisture as int,
            light: self.light as int,
            conductivity: self.conductivity as int,
        }
    }
}

/// Whether a stored record is served: it is an object whose `Timestamp` field
/// is a string naming a real instant no earlier than the cutoff.
pub open spec fn spec_kept(j: JsonData, cutoff: DateTime) -> bool {
    match j {
        JsonData::Obj(fields) => match spec_str_field(fields, "Timestamp"@) {
            Some(text) => match spec_parse_datetime(text) {
                Some(dt) => spec_dt_le(cutoff, dt),
                None => false,
            },
            None => false,
        },
        _ => false,
    }
}

/// The record a served object element yields: the timestamp text as stored,
/// the other fields defaulting where missing or of the wrong kind.
pub open spec fn spec_record_of(fields: Map<Seq<char>, JsonData>) -> SensorDataV {
    SensorDataV {
        timestamp: spec_str_field(fields, "Timestamp"@).unwrap(),
        mac: match spec_str_field(fields, "MAC"@) {
            Some(text) => text,
            None => Seq::empty(),
        },
        temperature: match spec_num_field(fields, "Temperature"@) {
            Some(c) => c,
            None => 0,
        },
        light: match spec_num_field(fields, "Light"@) {
            Some(c) => c,
            None => 0,
        },
        moisture: match spec_num_field(fields, "Moisture"@) {
            Some(c) => c,
            None => 0,
        },
        conductivity: match spec_num_field(fields, "Conductivity"@) {
            Some(c) => c,
            None => 0,
        },
    }
}

/// The serving rule for one stored element: the record it yields when kept,
/// nothing otherwise.
pub open spec fn spec_keep(cutoff: DateTime) -> spec_fn(JsonData) -> Option<SensorDataV> {
    |e: JsonData|
        if spec_kept(e, cutoff) {
            Some(spec_record_of(e->Obj_0))
        } else {
            None
        }
}

/// The records served from a sequence of stored elements: those kept by
/// [`spec_kept`], in order.
pub open spec fn spec_filtered(elems: Seq<JsonData>, cutoff: DateTime) -> Seq<SensorDataV> {
    elems.filter_map(spec_keep(cutoff))
}

/// The records served from a whole stored document: those of its elements when
/// it is an array, none otherwise.
pub open spec fn spec_filter_data(j: JsonData, cutoff: DateTime) -> Seq<SensorDataV> {
    match j {
        JsonData::Arr(elems) => spec_filtered(elems, cutoff),
        _ => Seq::empty(),
    }
}

/// Reads a string field, defaulting to empty text, by [`spec_record_of`]'s
/// rule for `MAC`.
fn str_field_or_empty(v: &Value, key: &str) -> (r: String)
    ensures
        json_model(*v) matches JsonData::Obj(fields) ==> r@ == (match spec_str_field(
            fields,
            key@,
        ) {
            Some(text) => text,
            None => Seq::<char>::empty(),
        }),
{
    match crate::decode::str_field(v, key) {
        Some(t) => t,
        None => String::new(),
    }
}

/// Reads a numeric field, defaulting to zero hundredths.
fn num_field_or_zero(v: &Value, key: &str) -> (r: i64)
    ensures
        json_model(*v) matches JsonData::Obj(fields) ==> r as int == (match spec_num_field(
            fields,
            key@,
        ) {
            Some(c) => c,
            None => 0,
        }),
{
    match crate::decode::num_field(v, key) {
        Some(c) => c,
        None => 0,
    }
}

/// Filters a parsed stored document to the records served, by
/// [`spec_filter_data`].
pub fn filter_records(v: &Value, cutoff: &DateTime) -> (records: Vec<SensorData>)
    ensures
        records@.map_values(|r: SensorData| r@) == spec_filter_data(json_model(*v), *cutoff),
{
    let mut records: Vec<SensorData> = Vec::new();
    let arr = match value_as_array(v) {
        Some(a) => a,
        None => {
            proof {
                assert(records@.map_values(|r: SensorData| r@) =~= spec_filter_data(
                    json_model(*v),
                    *cutoff,
                ));
            }
            return records;
        },
    };
    let ghost elems = json_model(*v)->Arr_0;
    let ghost keep = spec_keep(*cutoff);
    let n = arr.len();
    let mut i: usize = 0;
    while i < n
        invariant
            n == arr@.len(),
            json_model(*v) is Arr,
            elems == json_model(*v)->Arr_0,
            elems.len() == n,
            forall|j: int| 0 <= j < n ==> #[trigger] json_model(arr@[j]) == elems[j],
            i <= n,
            keep == spec_keep(*cutoff),
            records@.map_values(|r: SensorData| r@) == elems.subrange(0, i as int).filter_map(
                keep,
            ),
        decreases n - i,
    {
        let ghost step = elems.subrange(0, i + 1);
        proof {
            assert(step.drop_last() =~= elems.subrange(0, i as int));
            assert(step.last() == elems[i as int]);
        }
        let elem = &arr[i];
        let mut served = false;
        match crate::decode::str_field(elem, "Timestamp") {
            Some(text) => match parse_datetime(text.as_str()) {
                Some(dt) => {
                    if dt_le(cutoff, &dt) {
                        served = true;
                        let record = SensorData {
                            timestamp: text,
                            mac_address: str_field_or_empty(elem, "MAC"),
                            temperature: num_field_or_zero(elem, "Temperature"),
                            light: num_field_or_zero(elem, "Light"),
                            moisture: num_field_or_zero(elem, "Moisture"),
                            conductivity: num_field_or_zero(elem, "Conductivity"),
                        };
                        proof {
                            assert(spec_kept(elems[i as int], *cutoff));
                            assert(record@ == spec_record_of(elems[i as int]->Obj_0));
                        }
                        records.push(record);
                    }
                },
                None => {},
            },
            None => {},
        }
        proof {
            assert(served == spec_kept(elems[i as int], *cutoff));
            assert(records@.map_values(|r: SensorData| r@) =~= step.filter_map(keep));
        }
        i = i + 1;
    }
    proof {
        assert(elems.subrange(0, n as int) =~= elems);
    }
    records
}

/// The whole endpoint body: parses the stored text and filters it. Text that
/// is not a JSON document — an unreadable or empty file included — serves an
/// empty list rather than an error.
pub fn sensor_data_body(content: &str, cutoff: &DateTime) -> (records: Vec<SensorData>)
    ensures
        match json_parsed(content@) {
            Some(j) => records@.map_values(|r: SensorData| r@) == spec_filter_data(j, *cutoff),
            None => records@.len() == 0,
        },
{
    match parse_json(content) {
        Some(v) => filter_records(&v, cutoff),
        None => Vec::new(),
    }
}

} // verus!
