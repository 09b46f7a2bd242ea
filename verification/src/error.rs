//! The error value shared by every operation, and the reading of fetch
//! status codes.

use vstd::prelude::*;

verus! {

/// Status code of a call that succeeded.
pub const OCI_SUCCESS: i32 = 0;

/// Status code of a fetch that found the cursor exhausted.
pub const OCI_NO_DATA: i32 = 100;

/// Server code for "no data found".
pub const ORA_NO_DATA_FOUND: i32 = 1403;

/// Server code for "fetched column value was truncated".
pub const ORA_TRUNCATED: i32 = 1406;

/// Code carried by errors that the library raises itself.
pub const OCI_ERROR: i32 = -1;

/// An error with its numeric code, its text and the operation that met it.
#[derive(Debug, Clone)]
pub struct OracleError {
    pub errcode: i32,
    pub message: String,
    pub location: &'static str,
}

pub type OracleResult<T> = Result<T, OracleError>;

/// What a fetch status code means for the row stream.
#[derive(Debug, Clone, Copy, PartialEq, Eq, Structural)]
pub enum FetchStatus {
    /// The call succeeded; more rows may follow.
    Fetched,
    /// The server has no more rows: the stream ends normally.
    EndOfData,
    /// A column value was cut short: the stream ends normally, with a warning.
    Truncated,
    /// Any other code: the stream ends with an error.
    Failed,
}

/// The meaning of a fetch status code.
pub open spec fn fetch_status_of(code: i32) -> FetchStatus {
    if code == OCI_SUCCESS {
        FetchStatus::Fetched
    } else if code == OCI_NO_DATA || code == ORA_NO_DATA_FOUND {
        FetchStatus::EndOfData
    } else if code == ORA_TRUNCATED {
        FetchStatus::Truncated
    } else {
        FetchStatus::Failed
    }
}

/// Reads a fetch status code.
pub fn classify_fetch(code: i32) -> (status: FetchStatus)
    ensures
        status == fetch_status_of(code),
{
    if code == OCI_SUCCESS {
        FetchStatus::Fetched
    } else if code == OCI_NO_DATA || code == ORA_NO_DATA_FOUND {
        FetchStatus::EndOfData
    } else if code == ORA_TRUNCATED {
        FetchStatus::Truncated
    } else {
        FetchStatus::Failed
    }
}

impl OracleError {
    /// An error raised by the library itself, with the generic error code.
    pub fn new(message: String, location: &'static str) -> (error: OracleError)
        ensures
            error.errcode == OCI_ERROR,
            error.message@ == message@,
            error.location@ == location@,
    {
        OracleError { errcode: OCI_ERROR, message, location }
    }

    /// An error reported by the server under `errcode`.
    pub fn with_code(errcode: i32, message: String, location: &'static str) -> (error:
        OracleError)
        ensures
            error.errcode == errcode,
            error.message@ == message@,
            error.location@ == location@,
    {
        OracleError { errcode, message, location }
    }

    /// Whether the code ends a row stream without being an error.
    pub fn ends_stream_normally(&self) -> (normal: bool)
        ensures
            normal == (fetch_status_of(self.errcode) == FetchStatus::EndOfData || fetch_status_of(
                self.errcode,
            ) == FetchStatus::Truncated),
    {
        let status = classify_fetch(self.errcode);
        status == FetchStatus::EndOfData || status == FetchStatus::Truncated
    }
}

} // verus!
