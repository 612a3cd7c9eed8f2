use vstd::prelude::*;
use chrono::{Datelike, Timelike};
use crate::record::{
    all_payloads_read, or_default, records_from_columns, text_or, unknown_coordinate,
    unknown_site, MeasurementsSingleLocation, RowColumns, UNKNOWN_ID,
};
use crate::timestamp::UtcTimestamp;

verus! {

/// A result row of the query, as the database client hands it over.
#[verifier::external_type_specification]
#[verifier::external_body]
pub struct ExRow(tokio_postgres::Row);

/// The integer in column `name` of `row`; `None` where the column is absent,
/// SQL NULL or not an integer column.
pub uninterp spec fn int_column(row: tokio_postgres::Row, name: Seq<char>) -> Option<i32>;

/// The text in column `name` of `row`; `None` where the column is absent,
/// SQL NULL or not a text column.
pub uninterp spec fn text_column(row: tokio_postgres::Row, name: Seq<char>) -> Option<Seq<char>>;

/// The UTC instant in column `name` of `row`; `None` where the column is
/// absent, SQL NULL or not a timestamp column.
pub uninterp spec fn time_column(row: tokio_postgres::Row, name: Seq<char>) -> Option<UtcTimestamp>;

/// Column `name` of `row` holds a JSON value that can be decoded.
pub uninterp spec fn payload_readable(row: tokio_postgres::Row, name: Seq<char>) -> bool;

/// The text `r` is the text that a column read gave.
pub open spec fn same_text(r: Option<String>, t: Option<Seq<char>>) -> bool {
    match r {
        Some(s) => t == Some(s@),
        None => t is None,
    }
}

/// Relies on tokio_postgres's `Row::try_get` at `i32`: the decoded integer,
/// or `None` where the column is absent, SQL NULL or of another type.
#[verifier::external_body]
fn column_i32(row: &tokio_postgres::Row, name: &str) -> (r: Option<i32>)
    ensures
        r == int_column(*row, name@),
{
    row.try_get::<&str, i32>(name).ok()
}

/// Relies on tokio_postgres's `Row::try_get` at `String`: the decoded text,
/// or `None` where the column is absent, SQL NULL or of another type.
#[verifier::external_body]
fn column_text(row: &tokio_postgres::Row, name: &str) -> (r: Option<String>)
    ensures
        same_text(r, text_column(*row, name@)),
{
    row.try_get::<&str, String>(name).ok()
}

/// Relies on tokio_postgres's `Row::try_get` at chrono's `DateTime<Utc>`:
/// the decoded instant, or `None` where the column is absent, SQL NULL or of
/// another type. The calendar fields are taken with chrono's getters, whose
/// documented ranges are those of `UtcTimestamp::wf`.
#[verifier::external_body]
fn column_timestamp(row: &tokio_postgres::Row, name: &str) -> (r: Option<UtcTimestamp>)
    ensures
        r == time_column(*row, name@),
        r matches Some(t) ==> t.wf(),
{
    row.try_get::<&str, chrono::DateTime<chrono::Utc>>(name).ok().map(|t| UtcTimestamp {
        year: t.year(),
        month: t.month(),
        day: t.day(),
        hour: t.hour(),
        minute: t.minute(),
        second: t.second(),
        nanosecond: t.nanosecond(),
    })
}

/// Relies on tokio_postgres's `Row::try_get` at `serde_json::Value`: the
/// decoded JSON value, or the description of the client's error where the
/// column is absent, SQL NULL or of another type.
#[verifier::external_body]
fn column_json(row: &tokio_postgres::Row, name: &str) -> (r: Result<serde_json::Value, String>)
    ensures
        r is Ok <==> payload_readable(*row, name@),
{
    row.try_get::<&str, serde_json::Value>(name).map_err(|e| e.to_string())
}

/// `cols` holds what reading each column of `row` by its name gives.
pub open spec fn columns_read_from(row: tokio_postgres::Row, cols: RowColumns) -> bool {
    &&& cols.id == int_column(row, "id"@)
    &&& same_text(cols.name, text_column(row, "name"@))
    &&& same_text(cols.latitude, text_column(row, "latitude"@))
    &&& same_text(cols.longitude, text_column(row, "longitude"@))
    &&& cols.measurement_time_default == time_column(row, "measurement_time_default"@)
    &&& (cols.measurements is Ok <==> payload_readable(row, "measurements"@))
    &&& (cols.measurement_time_default matches Some(t) ==> t.wf())
}

/// `rec` is the record of `row`: each column that can be read is taken as
/// it is, every other one by its fallback.
pub open spec fn record_of_row(row: tokio_postgres::Row, rec: MeasurementsSingleLocation) -> bool {
    &&& payload_readable(row, "measurements"@)
    &&& rec.id == or_default(int_column(row, "id"@), UNKNOWN_ID)
    &&& rec.name@ == or_default(text_column(row, "name"@), unknown_site())
    &&& rec.latitude@ == or_default(text_column(row, "latitude"@), unknown_coordinate())
    &&& rec.longitude@ == or_default(text_column(row, "longitude"@), unknown_coordinate())
    &&& rec.measurement_time_default == or_default(
        time_column(row, "measurement_time_default"@),
        UtcTimestamp::spec_sentinel(),
    )
    &&& rec.measurement_time_default.wf()
}

proof fn lemma_text_fallback(r: Option<String>, t: Option<Seq<char>>, d: Seq<char>)
    requires
        same_text(r, t),
    ensures
        text_or(r, d) == or_default(t, d),
{
}

/// Reads every column of a result row by its name.
pub fn columns_of(row: &tokio_postgres::Row) -> (r: RowColumns)
    ensures
        columns_read_from(*row, r),
{
    let r = RowColumns {
        id: column_i32(row, "id"),
        name: column_text(row, "name"),
        latitude: column_text(row, "latitude"),
        longitude: column_text(row, "longitude"),
        measurement_time_default: column_timestamp(row, "measurement_time_default"),
        measurements: column_json(row, "measurements"),
    };
    proof {
        reveal_strlit("id");
        reveal_strlit("name");
        reveal_strlit("latitude");
        reveal_strlit("longitude");
        reveal_strlit("measurement_time_default");
        reveal_strlit("measurements");
    }
    r
}

impl MeasurementsSingleLocation {
    /// Maps one result row into a record. It fails, with the cause, exactly
    /// where the payload cannot be read; every other column falls back to its
    /// default on its own.
    pub fn try_from(row: &tokio_postgres::Row) -> (r: Result<Self, String>)
        ensures
            r is Ok <==> payload_readable(*row, "measurements"@),
            r matches Ok(rec) ==> record_of_row(*row, rec),
    {
        let cols = columns_of(row);
        let ghost c = cols;
        let r = Self::from_columns(cols);
        proof {
            lemma_text_fallback(c.name, text_column(*row, "name"@), unknown_site());
            lemma_text_fallback(c.latitude, text_column(*row, "latitude"@), unknown_coordinate());
            lemma_text_fallback(c.longitude, text_column(*row, "longitude"@), unknown_coordinate());
        }
        r
    }
}

/// Reads the columns of every row, in order.
pub fn columns_of_rows(rows: &Vec<tokio_postgres::Row>) -> (r: Vec<RowColumns>)
    ensures
        r@.len() == rows@.len(),
        forall|i: int| 0 <= i < r@.len() ==> columns_read_from(rows@[i], #[trigger] r@[i]),
{
    let mut out: Vec<RowColumns> = Vec::new();
    let mut i: usize = 0;
    while i < rows.len()
        invariant
            i <= rows@.len(),
            out@.len() == i,
            forall|j: int| 0 <= j < out@.len() ==> columns_read_from(rows@[j], #[trigger] out@[j]),
        decreases rows@.len() - i,
    {
        out.push(columns_of(&rows[i]));
        i = i + 1;
    }
    out
}

/// Every row of `rows` has a payload that can be read.
pub open spec fn all_rows_readable(rows: Seq<tokio_postgres::Row>) -> bool {
    forall|i: int| 0 <= i < rows.len() ==> payload_readable(#[trigger] rows[i], "measurements"@)
}

/// Maps the rows of one query, in order; the first row whose payload cannot
/// be read fails the batch with its cause.
pub fn records_from_rows(rows: &Vec<tokio_postgres::Row>) -> (r: Result<
    Vec<MeasurementsSingleLocation>,
    String,
>)
    ensures
        r is Ok <==> all_rows_readable(rows@),
        r matches Ok(v) ==> v@.len() == rows@.len() && forall|i: int|
            0 <= i < rows@.len() ==> record_of_row(rows@[i], #[trigger] v@[i]),
{
    let cols = columns_of_rows(rows);
    let ghost c = cols@;
    let r = records_from_columns(cols);
    proof {
        assert(all_payloads_read(c) <==> all_rows_readable(rows@)) by {
            if all_rows_readable(rows@) {
                assert forall|i: int| 0 <= i < c.len() implies (#[trigger] c[i]).measurements is Ok by {
                    assert(columns_read_from(rows@[i], c[i]));
                    assert(payload_readable(rows@[i], "measurements"@));
                }
            }
            if all_payloads_read(c) {
                assert forall|i: int| 0 <= i < rows@.len() implies payload_readable(
                    #[trigger] rows@[i],
                    "measurements"@,
                ) by {
                    assert(columns_read_from(rows@[i], c[i]));
                    assert(c[i].measurements is Ok);
                }
            }
        }
        if r is Ok {
            assert forall|i: int| 0 <= i < rows@.len() implies record_of_row(
                rows@[i],
                #[trigger] r->Ok_0@[i],
            ) by {
                let cc = c[i];
                assert(columns_read_from(rows@[i], cc));
                assert(crate::record::maps_to(cc, r->Ok_0@[i]));
                lemma_text_fallback(cc.name, text_column(rows@[i], "name"@), unknown_site());
                lemma_text_fallback(cc.latitude, text_column(rows@[i], "latitude"@), unknown_coordinate());
                lemma_text_fallback(cc.longitude, text_column(rows@[i], "longitude"@), unknown_coordinate());
            }
        }
    }
    r
}

} // verus!
