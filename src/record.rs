use vstd::prelude::*;
use crate::timestamp::UtcTimestamp;

verus! {

/// `serde_json::Value` is carried through the library as an opaque payload.
#[verifier::external_type_specification]
#[verifier::external_body]
pub struct ExJsonValue(serde_json::Value);

/// What could be read from each column of one result row: `None` where a
/// column is absent or does not decode, and for the payload the cause of the
/// failure.
pub struct RowColumns {
    pub id: Option<i32>,
    pub name: Option<String>,
    pub latitude: Option<String>,
    pub longitude: Option<String>,
    pub measurement_time_default: Option<UtcTimestamp>,
    pub measurements: Result<serde_json::Value, String>,
}

/// One weather observation of a site.
pub struct MeasurementsSingleLocation {
    pub id: i32,
    pub name: String,
    pub latitude: String,
    pub longitude: String,
    pub measurement_time_default: UtcTimestamp,
    pub measurements: serde_json::Value,
}

/// The id of a record whose `id` column could not be read.
pub const UNKNOWN_ID: i32 = -1;

/// The site name of a record whose `name` column could not be read.
pub open spec fn unknown_site() -> Seq<char> {
    "unknown site"@
}

/// The latitude or longitude of a record whose column could not be read.
pub open spec fn unknown_coordinate() -> Seq<char> {
    "-0.1"@
}

/// The decoded value, or `default` where there is none.
pub open spec fn or_default<T>(c: Option<T>, default: T) -> T {
    match c {
        Some(v) => v,
        None => default,
    }
}

/// The text of a decoded column, or `default` where there is none.
pub open spec fn text_or(c: Option<String>, default: Seq<char>) -> Seq<char> {
    match c {
        Some(s) => s@,
        None => default,
    }
}

/// `rec` is the record that the columns `cols` map to: every decoded column is
/// taken as it is, every other one by its fallback, and the payload as read.
pub open spec fn maps_to(cols: RowColumns, rec: MeasurementsSingleLocation) -> bool {
    &&& cols.measurements is Ok
    &&& rec.id == or_default(cols.id, UNKNOWN_ID)
    &&& rec.name@ == text_or(cols.name, unknown_site())
    &&& rec.latitude@ == text_or(cols.latitude, unknown_coordinate())
    &&& rec.longitude@ == text_or(cols.longitude, unknown_coordinate())
    &&& rec.measurement_time_default == or_default(
        cols.measurement_time_default,
        UtcTimestamp::spec_sentinel(),
    )
    &&& rec.measurements == cols.measurements->Ok_0
}

/// `r` is what mapping the columns `cols` gives.
pub open spec fn mapped_from(cols: RowColumns, r: Result<MeasurementsSingleLocation, String>) -> bool {
    &&& (r is Ok <==> cols.measurements is Ok)
    &&& (r is Ok ==> maps_to(cols, r->Ok_0))
    &&& (r is Err ==> r->Err_0 == cols.measurements->Err_0)
}

/// `r` is what mapping the rows `cols` in order gives.
pub open spec fn batch_mapped_from(
    cols: Seq<RowColumns>,
    r: Result<Vec<MeasurementsSingleLocation>, String>,
) -> bool {
    &&& (r is Ok <==> all_payloads_read(cols))
    &&& (r is Ok ==> r->Ok_0@.len() == cols.len() && forall|i: int|
        0 <= i < cols.len() ==> maps_to(#[trigger] cols[i], r->Ok_0@[i]))
    &&& (r is Err ==> exists|k: int|
        0 <= k < cols.len() && (#[trigger] cols[k]).measurements is Err && r->Err_0
            == cols[k].measurements->Err_0 && all_payloads_read(cols.take(k)))
}

fn text_or_fallback(c: Option<String>, fallback: &str) -> (r: String)
    ensures
        r@ == text_or(c, fallback@),
{
    match c {
        Some(s) => s,
        None => fallback.to_owned(),
    }
}

impl MeasurementsSingleLocation {
    /// Maps the columns of one row into a record. Each optional column falls
    /// back to its default on its own; a payload that could not be read fails
    /// the row with its cause.
    pub fn from_columns(cols: RowColumns) -> (r: Result<Self, String>)
        ensures
            mapped_from(cols, r),
    {
        let RowColumns { id, name, latitude, longitude, measurement_time_default, measurements } =
            cols;
        let measurements = match measurements {
            Ok(v) => v,
            Err(e) => {
                return Err(e);
            },
        };
        let id = match id {
            Some(v) => v,
            None => UNKNOWN_ID,
        };
        let measurement_time_default = match measurement_time_default {
            Some(t) => t,
            None => UtcTimestamp::sentinel(),
        };
        let rec = MeasurementsSingleLocation {
            id,
            name: text_or_fallback(name, "unknown site"),
            latitude: text_or_fallback(latitude, "-0.1"),
            longitude: text_or_fallback(longitude, "-0.1"),
            measurement_time_default,
            measurements,
        };
        proof {
            reveal_strlit("unknown site");
            reveal_strlit("-0.1");
        }
        Ok(rec)
    }
}

/// Every row of `cols` has its payload read.
pub open spec fn all_payloads_read(cols: Seq<RowColumns>) -> bool {
    forall|i: int| 0 <= i < cols.len() ==> (#[trigger] cols[i]).measurements is Ok
}

/// Maps every row, in order. The first row whose payload cannot be read fails
/// the whole batch with its cause.
pub fn records_from_columns(cols: Vec<RowColumns>) -> (r: Result<Vec<MeasurementsSingleLocation>, String>)
    ensures
        batch_mapped_from(cols@, r),
{
    let ghost all = cols@;
    let mut rest = cols;
    let mut out: Vec<MeasurementsSingleLocation> = Vec::new();
    while rest.len() > 0
        invariant
            all == cols@,
            out@.len() + rest@.len() == all.len(),
            rest@ == all.skip(out@.len() as int),
            forall|i: int| 0 <= i < out@.len() ==> maps_to(#[trigger] all[i], out@[i]),
        decreases rest@.len(),
    {
        let ghost k = out@.len() as int;
        let c = rest.remove(0);
        assert(c == all[k]);
        match MeasurementsSingleLocation::from_columns(c) {
            Ok(rec) => {
                out.push(rec);
                assert(rest@ =~= all.skip(out@.len() as int));
            },
            Err(e) => {
                assert(all_payloads_read(all.take(k))) by {
                    assert forall|i: int| 0 <= i < all.take(k).len() implies (
                    #[trigger] all.take(k)[i]).measurements is Ok by {
                        assert(maps_to(all[i], out@[i]));
                    }
                }
                assert(all[k].measurements is Err);
                assert(!all_payloads_read(all));
                return Err(e);
            },
        }
    }
    assert(all_payloads_read(all)) by {
        assert forall|i: int| 0 <= i < all.len() implies (#[trigger] all[i]).measurements is Ok by {
            assert(maps_to(all[i], out@[i]));
        }
    }
    Ok(out)
}

/// A row whose optional columns could not be read maps to the documented
/// fallbacks: id `-1`, site "unknown site", coordinates "-0.1" and the
/// observation time 1967-10-28T10:11:12Z.
pub proof fn lemma_missing_columns_fall_back(cols: RowColumns, rec: MeasurementsSingleLocation)
    requires
        maps_to(cols, rec),
    ensures
        cols.id is None ==> rec.id == -1,
        cols.name is None ==> rec.name@ == "unknown site"@,
        cols.latitude is None ==> rec.latitude@ == "-0.1"@,
        cols.longitude is None ==> rec.longitude@ == "-0.1"@,
        cols.measurement_time_default is None ==> rec.measurement_time_default == (UtcTimestamp {
            year: 1967,
            month: 10,
            day: 28,
            hour: 10,
            minute: 11,
            second: 12,
            nanosecond: 0,
        }),
{
}

/// Where every column of a row is read, the record holds the row's values.
pub proof fn lemma_decoded_columns_kept(cols: RowColumns, rec: MeasurementsSingleLocation)
    requires
        maps_to(cols, rec),
        (cols.id is Some),
        (cols.name is Some),
        (cols.latitude is Some),
        (cols.longitude is Some),
        (cols.measurement_time_default is Some),
    ensures
        rec.id == cols.id->0,
        rec.name@ == cols.name->0@,
        rec.latitude@ == cols.latitude->0@,
        rec.longitude@ == cols.longitude->0@,
        rec.measurement_time_default == cols.measurement_time_default->0,
        rec.measurements == cols.measurements->Ok_0,
{
}

/// A batch holding a row without a payload fails as a whole: mapping it gives
/// no records.
pub proof fn lemma_missing_payload_fails_batch(
    cols: Seq<RowColumns>,
    k: int,
    r: Result<Vec<MeasurementsSingleLocation>, String>,
)
    requires
        0 <= k < cols.len(),
        (cols[k].measurements is Err),
        batch_mapped_from(cols, r),
    ensures
        (r is Err),
{
}

/// Mapping keeps the order of the rows: the record at each position is the
/// one mapped from the row at that position.
pub proof fn lemma_order_preserved(
    cols: Seq<RowColumns>,
    r: Result<Vec<MeasurementsSingleLocation>, String>,
    i: int,
)
    requires
        batch_mapped_from(cols, r),
        (r is Ok),
        0 <= i < cols.len(),
    ensures
        r->Ok_0@.len() == cols.len(),
        mapped_from(cols[i], Ok(r->Ok_0@[i])),
{
}

} // verus!
