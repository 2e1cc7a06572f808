use sensor_dash::api::sensor_data_body;
use sensor_dash::datetime::{dt_le, parse_datetime, DateTime};
use sensor_dash::decimal::parse_centi;
use sensor_dash::decode::{decode_reading, parse_data};

fn value_of(text: &str) -> serde_json::Value {
    serde_json::from_str(text).expect("test input is valid JSON")
}

#[test]
fn malformed_elements_are_skipped_not_the_batch() {
    let v = value_of(
        r#"[
            {"timestamp": "2024-06-01 12:00:00", "mac_address": "aa:bb", "temperature": 23.5,
             "moisture": 300, "light": 15000, "conductivity": 120},
            {"temperature": "not even a number"},
            {"timestamp": "2024-06-01 12:05:00", "mac_address": "cc:dd", "temperature": 24,
             "moisture": 310, "light": 14000, "conductivity": 118}
        ]"#,
    );
    let data = parse_data(&v).expect("the document is an array");
    assert_eq!(data.len(), 2);
    assert_eq!(data[0].mac, "aa:bb");
    assert_eq!(data[0].temperature, 2350);
    assert_eq!(data[1].mac, "cc:dd");
    assert_eq!(data[1].temperature, 2400);
    assert_eq!(data[1].moisture, 31000);
}

#[test]
fn non_array_document_is_a_whole_batch_failure() {
    assert!(parse_data(&value_of("{}")).is_none());
    assert!(parse_data(&value_of("5")).is_none());
    assert!(parse_data(&value_of("\"rows\"")).is_none());
    // an empty array, by contrast, is a batch of zero readings
    assert_eq!(parse_data(&value_of("[]")).expect("an array").len(), 0);
}

#[test]
fn reading_fields_map_by_client_names() {
    let v = value_of(
        r#"{"timestamp": "2024-06-01 12:00:00", "mac_address": "aa:bb:cc", "temperature": -1.25,
            "moisture": 0, "light": 2, "conductivity": 7.005}"#,
    );
    let d = decode_reading(&v).expect("element is well-formed");
    assert_eq!(d.timestamp, "2024-06-01 12:00:00");
    assert_eq!(d.mac, "aa:bb:cc");
    assert_eq!(d.temperature, -125);
    assert_eq!(d.moisture, 0);
    assert_eq!(d.light, 200);
    assert_eq!(d.conductivity, 700);
}

#[test]
fn reading_missing_or_miskinded_field_is_malformed() {
    assert!(decode_reading(&value_of(
        r#"{"mac_address": "aa", "temperature": 1, "moisture": 1, "light": 1, "conductivity": 1}"#
    ))
        .is_none());
    assert!(decode_reading(&value_of(
        r#"{"timestamp": 42, "mac_address": "aa", "temperature": 1, "moisture": 1, "light": 1,
            "conductivity": 1}"#
    ))
        .is_none());
    assert!(decode_reading(&value_of("[]")).is_none());
}

#[test]
fn decimal_texts_parse_to_hundredths() {
    assert_eq!(parse_centi("300"), Some(30000));
    assert_eq!(parse_centi("23.5"), Some(2350));
    assert_eq!(parse_centi("-1.25"), Some(-125));
    assert_eq!(parse_centi("1.239"), Some(123));
    assert_eq!(parse_centi("0.05"), Some(5));
    assert_eq!(parse_centi("12."), Some(1200));
    assert_eq!(parse_centi("999999999999"), Some(99999999999900));
}

#[test]
fn decimal_texts_outside_the_shape_do_not_parse() {
    assert_eq!(parse_centi(""), None);
    assert_eq!(parse_centi("-"), None);
    assert_eq!(parse_centi("1e3"), None);
    assert_eq!(parse_centi("1.2.3"), None);
    assert_eq!(parse_centi("abc"), None);
    assert_eq!(parse_centi("1234567890123"), None);
    assert_eq!(parse_centi(".5"), None);
}

#[test]
fn timestamps_parse_with_calendar_validity() {
    let dt = parse_datetime("2024-02-29 10:30:05").expect("leap day exists in 2024");
    assert_eq!((dt.year, dt.month, dt.day), (2024, 2, 29));
    assert_eq!((dt.hour, dt.minute, dt.second), (10, 30, 5));
    assert!(parse_datetime("2023-02-29 10:30:05").is_none());
    assert!(parse_datetime("2024-13-01 00:00:00").is_none());
    assert!(parse_datetime("2024-06-31 00:00:00").is_none());
    assert!(parse_datetime("2024-06-01 24:00:00").is_none());
    assert!(parse_datetime("2024-06-01T00:00:00").is_none());
    assert!(parse_datetime("24-06-01 00:00:00").is_none());
}

#[test]
fn datetime_order_is_chronological() {
    let a = parse_datetime("2024-06-01 12:00:00").unwrap();
    let b = parse_datetime("2024-06-01 12:00:01").unwrap();
    let c = parse_datetime("2023-12-31 23:59:59").unwrap();
    assert!(dt_le(&a, &b));
    assert!(!dt_le(&b, &a));
    assert!(dt_le(&c, &a));
    assert!(dt_le(&a, &a));
    // across a leap year's last day
    let y_end = parse_datetime("2020-12-31 23:59:59").unwrap();
    let y_start = parse_datetime("2021-01-01 00:00:00").unwrap();
    assert!(dt_le(&y_end, &y_start));
    assert!(!dt_le(&y_start, &y_end));
}

#[test]
fn stored_records_filter_to_the_last_day() {
    let cutoff = DateTime { year: 2024, month: 6, day: 1, hour: 0, minute: 0, second: 0 };
    let content = r#"[
        {"Timestamp": "2024-06-01 08:00:00", "MAC": "aa:bb", "Temperature": 21.5,
         "Light": 900, "Moisture": 410, "Conductivity": 99},
        {"Timestamp": "2024-05-30 08:00:00", "MAC": "old", "Temperature": 20,
         "Light": 1, "Moisture": 1, "Conductivity": 1},
        {"MAC": "no timestamp at all"},
        {"Timestamp": "2024-06-01 09:30:00"}
    ]"#;
    let records = sensor_data_body(content, &cutoff);
    assert_eq!(records.len(), 2);
    assert_eq!(records[0].timestamp, "2024-06-01 08:00:00");
    assert_eq!(records[0].mac_address, "aa:bb");
    assert_eq!(records[0].temperature, 2150);
    assert_eq!(records[0].light, 90000);
    // defaults where fields are missing
    assert_eq!(records[1].timestamp, "2024-06-01 09:30:00");
    assert_eq!(records[1].mac_address, "");
    assert_eq!(records[1].temperature, 0);
    assert_eq!(records[1].conductivity, 0);
}

#[test]
fn unparseable_store_serves_an_empty_list() {
    let cutoff = DateTime { year: 2024, month: 6, day: 1, hour: 0, minute: 0, second: 0 };
    assert_eq!(sensor_data_body("", &cutoff).len(), 0);
    assert_eq!(sensor_data_body("   ", &cutoff).len(), 0);
    assert_eq!(sensor_data_body("{not json", &cutoff).len(), 0);
    assert_eq!(sensor_data_body("{\"a\": 1}", &cutoff).len(), 0);
}
