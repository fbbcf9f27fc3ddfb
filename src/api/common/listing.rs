use vstd::prelude::*;
use crate::api::common::client::{check_status, is_success, status_failure};
use crate::api::common::error::ApiError;
use crate::api::common::parse::parse_json;
use crate::api::common::response::{counted, decode_counted, json_doc, plain_body, Entity, ResponseProcessor};
use crate::api::common::tree::Node;

verus! {

/// The records of a JSON answer of the second-generation clients: a leading
/// count record is dropped; any document but a list holds no records.
pub open spec fn listing<E: Entity>(tree: Node) -> Option<Seq<E>> {
    match counted::<E>(tree) {
        Some((_, es)) => Some(es),
        None => None,
    }
}

/// Decodes a second-generation answer with HTTP status `status`: a status
/// outside 2xx is a network error and the body is not read; an empty body
/// holds no records; a body that is no JSON text, or a record that does not
/// fit its type, is a deserialization error. Where `gzip` is on the body is
/// decompressed first.
pub fn decode_listing<E: Entity>(status: u16, body: Vec<u8>, gzip: bool) -> (r: Result<Vec<E>, ApiError>)
    ensures
        !is_success(status) ==> r is Err && status_failure(r->Err_0, status),
        is_success(status) ==> match plain_body(body@, gzip) {
            None => r is Err && r->Err_0 is GzipDecompression,
            Some(p) => match json_doc(p) {
                None => r is Err && r->Err_0 is Deserialization,
                Some(t) => match listing::<E>(t) {
                    Some(es) => r is Ok && r->Ok_0@ == es,
                    None => r is Err && r->Err_0 is Deserialization,
                },
            },
        },
{
    let data = check_status(status, body)?;
    let data = ResponseProcessor::decompress_if(data, gzip)?;
    let tree = if data.len() == 0 {
        Node::Null
    } else {
        match parse_json(data.as_slice()) {
            Ok(t) => t,
            Err(e) => {
                return Err(ApiError::Deserialization(e));
            },
        }
    };
    let (_, es) = decode_counted::<E>(&tree)?;
    Ok(es)
}

} // verus!
