//! Read-only access to the weather measurements of one site.
//!
//! The request path is clamped into the range the query accepts, each row
//! that the query returns is mapped into a record with per-column fallbacks,
//! and every failure becomes an internal-error answer that carries its cause.
mod params;

pub use params::{effective_row_count, effective_site_id, query_args, MAX_ROWS};
mod record;
mod timestamp;

pub use record::{records_from_columns, MeasurementsSingleLocation, RowColumns, UNKNOWN_ID};
pub use timestamp::UtcTimestamp;
mod row;

pub use row::{columns_of, columns_of_rows, records_from_rows};
mod response;

pub use response::{internal_error, or_internal_error, ErrorResponse, INTERNAL_SERVER_ERROR};
