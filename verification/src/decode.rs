//! Decoding a fetched JSON document into sensor readings.
//!
//! The remote endpoint answers with a JSON array of objects; each object
//! carries the six reading fields under their lower-case client names
//! (`timestamp`, `mac_address`, `temperature`, `moisture`, `light`,
//! `conductivity`). An element that is missing a field, or carries one of the
//! wrong kind, is malformed: it is skipped, and never discards its valid
//! siblings. A document that is not an array yields no readings at all.

use vstd::prelude::*;

use serde_json::Value;

use crate::decimal::{dec_centi, dec_text_ok, parse_centi};
use crate::json::{json_model, value_as_array, value_as_str, value_get, value_number_text, JsonData};
use crate::state::{SensorData, SensorDataV};

verus! {

/// The text of a string field, if the object has one under the key.
pub open spec fn spec_str_field(fields: Map<Seq<char>, JsonData>, key: Seq<char>) -> Option<
    Seq<char>,
> {
    if fields.dom().contains(key) {
        match fields[key] {
            JsonData::Str(text) => Some(text),
            _ => None,
        }
    } else {
        None
    }
}

/// The hundredths value of a numeric field, if the object has one under the
/// key whose decimal text the crate accepts.
pub open spec fn spec_num_field(fields: Map<Seq<char>, JsonData>, key: Seq<char>) -> Option<int> {
    if fields.dom().contains(key) {
        match fields[key] {
            JsonData::Num(text) => if dec_text_ok(text) {
                Some(dec_centi(text))
            } else {
                None
            },
            _ => None,
        }
    } else {
        None
    }
}

/// The explicit field mapping of one reading: what one array element decodes
/// to, or `None` where the element is malformed.
pub open spec fn spec_decode_reading(j: JsonData) -> Option<SensorDataV> {
    match j {
        JsonData::Obj(fields) => {
            if {
                &&& spec_str_field(fields, "timestamp"@) is Some
                &&& spec_str_field(fields, "mac_address"@) is Some
                &&& spec_num_field(fields, "temperature"@) is Some
                &&& spec_num_field(fields, "moisture"@) is Some
                &&& spec_num_field(fields, "light"@) is Some
                &&& spec_num_field(fields, "conductivity"@) is Some
            } {
                Some(
                    SensorDataV {
                        timestamp: spec_str_field(fields, "timestamp"@).unwrap(),
                        mac: spec_str_field(fields, "mac_address"@).unwrap(),
                        temperature: spec_num_field(fields, "temperature"@).unwrap(),
                        moisture: spec_num_field(fields, "moisture"@).unwrap(),
                        light: spec_num_field(fields, "light"@).unwrap(),
                        conductivity: spec_num_field(fields, "conductivity"@).unwrap(),
                    },
                )
            } else {
                None
            }
        },
        _ => None,
    }
}

/// The readings a sequence of elements decodes to: each element that decodes,
/// in order; malformed elements contribute nothing.
pub open spec fn spec_decoded(elems: Seq<JsonData>) -> Seq<SensorDataV> {
    elems.filter_map(|e: JsonData| spec_decode_reading(e))
}

/// What a whole fetched document yields: the batch of its elements' readings
/// when it is an array — possibly empty — and no batch at all otherwise.
pub open spec fn spec_parse_data(j: JsonData) -> Option<Seq<SensorDataV>> {
    match j {
        JsonData::Arr(elems) => Some(spec_decoded(elems)),
        _ => None,
    }
}

/// Reads a string field of an object element, by [`spec_str_field`].
pub(crate) fn str_field(v: &Value, key: &str) -> (r: Option<String>)
    ensures
        match json_model(*v) {
            JsonData::Obj(fields) => match r {
                Some(t) => spec_str_field(fields, key@) == Some(t@),
                None => spec_str_field(fields, key@) is None,
            },
            _ => r is None,
        },
{
    match value_get(v, key) {
        Some(f) => match value_as_str(f) {
            Some(t) => Some(t.to_owned()),
            None => None,
        },
        None => None,
    }
}

/// Reads a numeric field of an object element into hundredths, by
/// [`spec_num_field`].
pub(crate) fn num_field(v: &Value, key: &str) -> (r: Option<i64>)
    ensures
        match json_model(*v) {
            JsonData::Obj(fields) => match r {
                Some(c) => spec_num_field(fields, key@) == Some(c as int),
                None => spec_num_field(fields, key@) is None,
            },
            _ => r is None,
        },
{
    match value_get(v, key) {
        Some(f) => match value_number_text(f) {
            Some(text) => parse_centi(text.as_str()),
            None => None,
        },
        None => None,
    }
}

/// Decodes one array element into a reading, by [`spec_decode_reading`]:
/// the six fields under their client names, or `None` where any is missing or
/// of the wrong kind.
pub fn decode_reading(v: &Value) -> (r: Option<SensorData>)
    ensures
        match r {
            Some(d) => spec_decode_reading(json_model(*v)) == Some(d@),
            None => spec_decode_reading(json_model(*v)) is None,
        },
{
    let timestamp = match str_field(v, "timestamp") {
        Some(t) => t,
        None => { return None },
    };
    let mac = match str_field(v, "mac_address") {
        Some(t) => t,
        None => { return None },
    };
    let temperature = match num_field(v, "temperature") {
        Some(c) => c,
        None => { return None },
    };
    let moisture = match num_field(v, "moisture") {
        Some(c) => c,
        None => { return None },
    };
    let light = match num_field(v, "light") {
        Some(c) => c,
        None => { return None },
    };
    let conductivity = match num_field(v, "conductivity") {
        Some(c) => c,
        None => { return None },
    };
    Some(SensorData { timestamp, mac, temperature, moisture, light, conductivity })
}

/// Decodes a fetched document into the batch of readings it carries, by
/// [`spec_parse_data`]: the in-order decodings of the well-formed elements,
/// or `None` exactly when the document is not an array (a whole-batch decode
/// failure).
pub fn parse_data(v: &Value) -> (data: Option<Vec<SensorData>>)
    ensures
        match data {
            Some(batch) => spec_parse_data(json_model(*v)) == Some(
                batch@.map_values(|d: SensorData| d@),
            ),
            None => spec_parse_data(json_model(*v)) is None,
        },
{
    let mut data: Vec<SensorData> = Vec::new();
    let arr = match value_as_array(v) {
        Some(a) => a,
        None => {
            return None;
        },
    };
    let ghost elems = json_model(*v)->Arr_0;
    let n = arr.len();
    let mut i: usize = 0;
    while i < n
        invariant
            n == arr@.len(),
            json_model(*v) is Arr,
            elems == json_model(*v)->Arr_0,
            elems.len() == n,
            forall|j: int| 0 <= j < n ==> #[trigger] json_model(arr@[j]) == elems[j],
            i <= n,
            data@.map_values(|d: SensorData| d@) == spec_decoded(elems.subrange(0, i as int)),
        decreases n - i,
    {
        let ghost prefix = elems.subrange(0, i as int);
        let ghost step = elems.subrange(0, i + 1);
        proof {
            assert(step.drop_last() =~= prefix);
            assert(step.last() == elems[i as int]);
        }
        match decode_reading(&arr[i]) {
            Some(d) => {
                data.push(d);
                proof {
                    assert(data@.map_values(|d: SensorData| d@) =~= spec_decoded(step));
                }
            },
            None => {
                proof {
                    assert(data@.map_values(|d: SensorData| d@) =~= spec_decoded(step));
                }
            },
        }
        i = i + 1;
    }
    proof {
        assert(elems.subrange(0, n as int) =~= elems);
    }
    Some(data)
}

/// Partial failure is contained: a malformed element changes nothing about
/// how its siblings decode — the batch from a sequence with the element is
/// the batch from the sequence without it.
pub proof fn law_bad_element_skipped(
    before: Seq<JsonData>,
    bad: JsonData,
    after: Seq<JsonData>,
)
    requires
        spec_decode_reading(bad) is None,
    ensures
        spec_decoded(before + seq![bad] + after) == spec_decoded(before + after),
    decreases after.len(),
{
    let f = |e: JsonData| spec_decode_reading(e);
    if after.len() == 0 {
        assert(before + seq![bad] + after =~= (before + seq![bad]));
        assert(before + after =~= before);
        assert((before + seq![bad]).drop_last() =~= before);
        assert((before + seq![bad]).last() == bad);
    } else {
        let last = after.last();
        law_bad_element_skipped(before, bad, after.drop_last());
        assert((before + seq![bad] + after).drop_last() =~= (before + seq![bad]
            + after.drop_last()));
        assert((before + seq![bad] + after).last() == last);
        assert((before + after).drop_last() =~= (before + after.drop_last()));
        assert((before + after).last() == last);
    }
}

} // verus!
