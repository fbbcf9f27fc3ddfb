use vstd::prelude::*;

verus! {

/// The failures a call can end in.
#[derive(Debug)]
pub enum ApiError {
    /// The transport failed, or the server answered with a status outside 2xx
    /// (then `status` holds it).
    Network { status: Option<u16>, message: String },
    Serialization(String),
    /// The body is no document of the declared format, or a record in it
    /// does not fit its type.
    Deserialization(String),
    /// The request asked for an output format that is not decoded here.
    InvalidFormat(String),
    /// The body was to be gzip-compressed and is not a valid gzip stream.
    GzipDecompression(String),
    Other(String),
}

/// `r` is the outcome that the partial result `s` describes: `Ok(v)` where `s`
/// is `Some(v)`, a deserialization error where it is `None`.
pub open spec fn agrees<T>(r: Result<T, ApiError>, s: Option<T>) -> bool {
    match s {
        Some(v) => r == Ok::<T, ApiError>(v),
        None => r is Err && r->Err_0 is Deserialization,
    }
}

} // verus!
