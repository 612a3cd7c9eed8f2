use vstd::prelude::*;

verus! {

/// The largest number of rows one request may ask for.
pub const MAX_ROWS: i32 = 144;

/// The site id that the query is run with: negative ids become `0`.
pub open spec fn spec_site_id(site_id: int) -> int {
    if site_id < 0 {
        0
    } else {
        site_id
    }
}

/// The row count that the query is run with: clamped into `0..=MAX_ROWS`.
pub open spec fn spec_row_count(rows: int) -> int {
    if rows > MAX_ROWS {
        MAX_ROWS as int
    } else if rows < 0 {
        0
    } else {
        rows
    }
}

/// Site id passed to the stored function for a requested `site_id`.
pub fn effective_site_id(site_id: i32) -> (r: i32)
    ensures
        r == spec_site_id(site_id as int),
        site_id < 0 ==> r == 0,
        site_id >= 0 ==> r == site_id,
{
    if site_id < 0 {
        0
    } else {
        site_id
    }
}

/// Row count passed to the stored function for a requested `rows`.
pub fn effective_row_count(rows: i32) -> (r: i32)
    ensures
        r == spec_row_count(rows as int),
        rows > MAX_ROWS ==> r == MAX_ROWS,
        rows < 0 ==> r == 0,
        0 <= rows <= MAX_ROWS ==> r == rows,
{
    if rows > MAX_ROWS {
        MAX_ROWS
    } else if rows < 0 {
        0
    } else {
        rows
    }
}

/// The two positional arguments of the query for a request path.
pub fn query_args(site_id: i32, rows: i32) -> (r: (i32, i32))
    ensures
        r.0 == spec_site_id(site_id as int),
        r.1 == spec_row_count(rows as int),
{
    (effective_site_id(site_id), effective_row_count(rows))
}

/// Every negative site id is queried as site `0`.
pub proof fn lemma_negative_site_is_zero(site_id: i32)
    requires
        site_id < 0,
    ensures
        spec_site_id(site_id as int) == 0,
{
}

/// A row count above the cap is queried as the cap, one below zero as zero,
/// and one inside the range as itself.
pub proof fn lemma_row_count_clamped(rows: i32)
    ensures
        rows > MAX_ROWS ==> spec_row_count(rows as int) == MAX_ROWS,
        rows < 0 ==> spec_row_count(rows as int) == 0,
        0 <= rows <= MAX_ROWS ==> spec_row_count(rows as int) == rows,
        0 <= spec_row_count(rows as int) <= MAX_ROWS,
{
}

/// Clamping is idempotent: clamped arguments are queried unchanged, so any
/// request is answered as the request with its clamped arguments.
pub proof fn lemma_clamp_idempotent(site_id: i32, rows: i32)
    ensures
        spec_site_id(spec_site_id(site_id as int)) == spec_site_id(site_id as int),
        spec_row_count(spec_row_count(rows as int)) == spec_row_count(rows as int),
{
}

} // verus!
