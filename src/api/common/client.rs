use vstd::prelude::*;
use crate::api::common::error::ApiError;
use crate::api::common::response::{processed, ApiResponse, OutputFormat, ResponseProcessor};

verus! {

/// The user agent a client sends unless told otherwise.
pub const DEFAULT_USER_AGENT: &'static str = "Mozilla/5.0 (Windows NT 10.0; Win64; x64) AppleWebKit/537.36 (KHTML, like Gecko) Chrome/91.0.4472.124 Safari/537.36";

/// A 2xx status.
pub open spec fn is_success(status: u16) -> bool {
    200 <= status <= 299
}

/// The error for a response whose status is not 2xx.
pub open spec fn status_failure(r: ApiError, status: u16) -> bool {
    r is Network && r->status == Some(status)
}

/// Accepts the body of a 2xx response; any other status is a network error
/// that carries it, and the body is dropped unread.
pub fn check_status(status: u16, body: Vec<u8>) -> (r: Result<Vec<u8>, ApiError>)
    ensures
        is_success(status) ==> r is Ok && r->Ok_0@ == body@,
        !is_success(status) ==> r is Err && status_failure(r->Err_0, status),
{
    if 200 <= status && status <= 299 {
        Ok(body)
    } else {
        Err(ApiError::Network { status: Some(status), message: "HTTP status outside 2xx".to_string() })
    }
}

/// Everything after the transport: the status check, then decompression,
/// parsing and decoding of the body.
pub fn finish_response<T: ApiResponse>(status: u16, body: Vec<u8>, format: &OutputFormat, gzip: bool) -> (r: Result<T, ApiError>)
    ensures
        !is_success(status) ==> r is Err && status_failure(r->Err_0, status),
        is_success(status) ==> processed(r, body@, *format, gzip),
{
    let data = check_status(status, body)?;
    ResponseProcessor::process(data, format, gzip)
}

} // verus!
