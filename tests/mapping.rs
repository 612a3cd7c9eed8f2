use serde_json::Value;
use site_measurements::{
    effective_row_count, effective_site_id, internal_error, or_internal_error, query_args,
    records_from_columns, MeasurementsSingleLocation, RowColumns, UtcTimestamp,
    INTERNAL_SERVER_ERROR, MAX_ROWS, UNKNOWN_ID,
};

fn observed(hour: u32) -> UtcTimestamp {
    UtcTimestamp { year: 2023, month: 3, day: 14, hour, minute: 5, second: 6, nanosecond: 0 }
}

fn payload(n: i64) -> Value {
    Value::from(vec![Value::from(n), Value::from("wind")])
}

fn full_row(id: i32) -> RowColumns {
    RowColumns {
        id: Some(id),
        name: Some("Station ".to_string() + &id.to_string()),
        latitude: Some("52.37".to_string()),
        longitude: Some("4.89".to_string()),
        measurement_time_default: Some(observed(id as u32 % 24)),
        measurements: Ok(payload(id as i64)),
    }
}

fn empty_row() -> RowColumns {
    RowColumns {
        id: None,
        name: None,
        latitude: None,
        longitude: None,
        measurement_time_default: None,
        measurements: Ok(Value::Null),
    }
}

#[test]
fn negative_site_id_becomes_zero() {
    assert_eq!(effective_site_id(-1), 0);
    assert_eq!(effective_site_id(-5), 0);
    assert_eq!(effective_site_id(i32::MIN), 0);
    assert_eq!(effective_site_id(0), 0);
    assert_eq!(effective_site_id(999999), 999999);
    assert_eq!(effective_site_id(i32::MAX), i32::MAX);
}

#[test]
fn row_count_is_clamped() {
    assert_eq!(MAX_ROWS, 144);
    assert_eq!(effective_row_count(145), 144);
    assert_eq!(effective_row_count(200), 144);
    assert_eq!(effective_row_count(i32::MAX), 144);
    assert_eq!(effective_row_count(-1), 0);
    assert_eq!(effective_row_count(i32::MIN), 0);
    assert_eq!(effective_row_count(0), 0);
    assert_eq!(effective_row_count(10), 10);
    assert_eq!(effective_row_count(144), 144);
}

#[test]
fn out_of_range_request_is_queried_as_clamped_request() {
    assert_eq!(query_args(-5, 200), (0, 144));
    assert_eq!(query_args(-5, 200), query_args(0, 144));
    assert_eq!(query_args(1, 10), (1, 10));
}

#[test]
fn missing_columns_fall_back_to_defaults() {
    let rec = MeasurementsSingleLocation::from_columns(empty_row()).unwrap();
    assert_eq!(rec.id, -1);
    assert_eq!(UNKNOWN_ID, -1);
    assert_eq!(rec.name, "unknown site");
    assert_eq!(rec.latitude, "-0.1");
    assert_eq!(rec.longitude, "-0.1");
    assert_eq!(
        rec.measurement_time_default,
        UtcTimestamp { year: 1967, month: 10, day: 28, hour: 10, minute: 11, second: 12, nanosecond: 0 }
    );
    assert_eq!(UtcTimestamp::sentinel(), rec.measurement_time_default);
    assert_eq!(rec.measurements, Value::Null);
}

#[test]
fn one_missing_column_leaves_the_others() {
    let mut cols = full_row(7);
    cols.latitude = None;
    let rec = MeasurementsSingleLocation::from_columns(cols).unwrap();
    assert_eq!(rec.id, 7);
    assert_eq!(rec.name, "Station 7");
    assert_eq!(rec.latitude, "-0.1");
    assert_eq!(rec.longitude, "4.89");
    assert_eq!(rec.measurement_time_default, observed(7));
}

#[test]
fn missing_payload_fails_the_row() {
    let mut cols = full_row(3);
    cols.measurements = Err("column measurements not found".to_string());
    let r = MeasurementsSingleLocation::from_columns(cols);
    assert_eq!(r.err(), Some("column measurements not found".to_string()));
}

#[test]
fn missing_payload_fails_the_request() {
    let mut bad = full_row(2);
    bad.measurements = Err("no payload".to_string());
    let later = {
        let mut c = full_row(3);
        c.measurements = Err("later failure".to_string());
        c
    };
    let r = records_from_columns(vec![full_row(1), bad, later]);
    assert_eq!(r.as_ref().err(), Some(&"no payload".to_string()));
    let answer = or_internal_error(r);
    let err = answer.err().unwrap();
    assert_eq!(err.status, 500);
    assert_eq!(err.body, "no payload");
}

#[test]
fn decoded_row_keeps_its_values() {
    let rec = MeasurementsSingleLocation::from_columns(full_row(42)).unwrap();
    assert_eq!(rec.id, 42);
    assert_eq!(rec.name, "Station 42");
    assert_eq!(rec.latitude, "52.37");
    assert_eq!(rec.longitude, "4.89");
    assert_eq!(rec.measurement_time_default, observed(18));
    assert_eq!(rec.measurements, payload(42));
}

#[test]
fn rows_keep_their_order() {
    let recs = records_from_columns(vec![full_row(30), full_row(10), full_row(20)]).unwrap();
    let ids: Vec<i32> = recs.iter().map(|r| r.id).collect();
    assert_eq!(ids, vec![30, 10, 20]);
    assert_eq!(recs[1].measurements, payload(10));
}

#[test]
fn five_rows_give_five_records() {
    let rows: Vec<RowColumns> = (1..=5).map(full_row).collect();
    let r = or_internal_error(records_from_columns(rows));
    let recs = r.ok().unwrap();
    assert_eq!(recs.len(), 5);
    assert_eq!(recs[4].id, 5);
}

#[test]
fn unknown_site_gives_empty_answer() {
    let r = or_internal_error(records_from_columns(Vec::new()));
    assert!(r.ok().unwrap().is_empty());
}

#[test]
fn pool_failure_is_internal_error_with_its_description() {
    let err = internal_error("timed out waiting for connection".to_string());
    assert_eq!(err.status, INTERNAL_SERVER_ERROR);
    assert_eq!(err.status, 500);
    assert_eq!(err.body, "timed out waiting for connection");
    let r: Result<Vec<MeasurementsSingleLocation>, String> = Err("pool closed".to_string());
    let answer = or_internal_error(r).err().unwrap();
    assert_eq!(answer.status, 500);
    assert_eq!(answer.body, "pool closed");
}

#[test]
fn sentinel_is_well_formed_instant() {
    let t = UtcTimestamp::sentinel();
    assert_eq!((t.year, t.month, t.day), (1967, 10, 28));
    assert_eq!((t.hour, t.minute, t.second, t.nanosecond), (10, 11, 12, 0));
}
