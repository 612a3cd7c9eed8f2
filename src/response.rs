use vstd::prelude::*;

verus! {

/// HTTP status of an answer that failed on the server's side.
pub const INTERNAL_SERVER_ERROR: u16 = 500;

/// A failed answer: its HTTP status and the description of the cause.
pub struct ErrorResponse {
    pub status: u16,
    pub body: String,
}

/// Turns the description of any unrecovered failure (no pooled connection,
/// a failed query, a row that cannot be mapped, an encoding failure) into an
/// internal-error answer that carries it.
pub fn internal_error(description: String) -> (r: ErrorResponse)
    ensures
        r.status == INTERNAL_SERVER_ERROR,
        r.body@ == description@,
{
    ErrorResponse { status: INTERNAL_SERVER_ERROR, body: description }
}

/// The answer for the outcome of one step of a request: a value passes
/// through, a failure becomes an internal error carrying its description.
pub fn or_internal_error<T>(outcome: Result<T, String>) -> (r: Result<T, ErrorResponse>)
    ensures
        outcome is Ok <==> r is Ok,
        outcome matches Ok(v) ==> r == Ok::<T, ErrorResponse>(v),
        outcome matches Err(e) ==> r matches Err(resp) && resp.status == INTERNAL_SERVER_ERROR
            && resp.body@ == e@,
{
    match outcome {
        Ok(v) => Ok(v),
        Err(e) => Err(internal_error(e)),
    }
}

} // verus!
