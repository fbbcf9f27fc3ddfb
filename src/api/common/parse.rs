use vstd::prelude::*;
use crate::api::common::tree::Node;

verus! {

/// serde_json's generic document type, carried through the parser only.
#[verifier::external_type_specification]
#[verifier::external_body]
pub struct ExJsonValue(serde_json::Value);

/// serde_yaml's generic document type, carried through the parser only.
#[verifier::external_type_specification]
#[verifier::external_body]
pub struct ExYamlValue(serde_yaml::Value);

/// The tree that serde_json reads from `bytes`; `None` where they are no JSON text.
pub uninterp spec fn json_tree(bytes: Seq<u8>) -> Option<Node>;

/// The tree that serde_yaml reads from `bytes`; `None` where they are no YAML document.
pub uninterp spec fn yaml_tree(bytes: Seq<u8>) -> Option<Node>;

/// The payload of the gzip stream `bytes`; `None` where they are no valid gzip stream.
pub uninterp spec fn gunzip(bytes: Seq<u8>) -> Option<Seq<u8>>;

/// Moves a serde_json::Value into a `Node`, variant for variant; relies on
/// serde_json::Number::as_i128, so numbers that are not integers become
/// `Opaque`. Only the parsing wrappers call it.
#[verifier::external_body]
fn node_of_json(v: serde_json::Value) -> Node {
    match v {
        serde_json::Value::Null => Node::Null,
        serde_json::Value::Bool(b) => Node::Bool(b),
        serde_json::Value::Number(n) => n.as_i128().map_or(Node::Opaque, Node::Int),
        serde_json::Value::String(s) => Node::Text(s),
        serde_json::Value::Array(a) => Node::List(a.into_iter().map(node_of_json).collect()),
        serde_json::Value::Object(m) => Node::Dict(
            m.into_iter().map(|(k, x)| (Node::Text(k), node_of_json(x))).collect(),
        ),
    }
}

/// Moves a serde_yaml::Value into a `Node`, variant for variant; relies on
/// serde_yaml::Number::as_i64 and as_u64, so numbers that are not integers,
/// and tagged values, become `Opaque`. Only the parsing wrappers call it.
#[verifier::external_body]
fn node_of_yaml(v: serde_yaml::Value) -> Node {
    match v {
        serde_yaml::Value::Null => Node::Null,
        serde_yaml::Value::Bool(b) => Node::Bool(b),
        serde_yaml::Value::Number(n) => n.as_i64().map(|i| Node::Int(i as i128)).or(
            n.as_u64().map(|u| Node::Int(u as i128))).unwrap_or(Node::Opaque),
        serde_yaml::Value::String(s) => Node::Text(s),
        serde_yaml::Value::Sequence(a) => Node::List(a.into_iter().map(node_of_yaml).collect()),
        serde_yaml::Value::Mapping(m) => Node::Dict(
            m.into_iter().map(|(k, x)| (node_of_yaml(k), node_of_yaml(x))).collect(),
        ),
        serde_yaml::Value::Tagged(_) => Node::Opaque,
    }
}

/// Relies on serde_json::from_slice into serde_json::Value: whether the bytes
/// parse, and to what, depends on the bytes alone.
#[verifier::external_body]
pub(crate) fn parse_json(data: &[u8]) -> (r: Result<Node, String>)
    ensures
        r is Ok <==> json_tree(data@) is Some,
        r is Ok ==> json_tree(data@) == Some(r->Ok_0),
{
    serde_json::from_slice::<serde_json::Value>(data).map(node_of_json).map_err(|e| e.to_string())
}

/// Relies on serde_yaml::from_slice into serde_yaml::Value: whether the bytes
/// parse, and to what, depends on the bytes alone.
#[verifier::external_body]
pub(crate) fn parse_yaml(data: &[u8]) -> (r: Result<Node, String>)
    ensures
        r is Ok <==> yaml_tree(data@) is Some,
        r is Ok ==> yaml_tree(data@) == Some(r->Ok_0),
{
    serde_yaml::from_slice::<serde_yaml::Value>(data).map(node_of_yaml).map_err(|e| e.to_string())
}

/// Relies on flate2::read::GzDecoder read to the end (std::io::Read::read_to_end):
/// the decompressed payload, which depends on the bytes alone.
#[verifier::external_body]
pub(crate) fn gunzip_bytes(data: &[u8]) -> (r: Result<Vec<u8>, String>)
    ensures
        r is Ok <==> gunzip(data@) is Some,
        r is Ok ==> gunzip(data@) == Some(r->Ok_0@),
{
    let mut out = Vec::new();
    let mut decoder = flate2::read::GzDecoder::new(data);
    std::io::Read::read_to_end(&mut decoder, &mut out).map_err(|e| e.to_string())?;
    Ok(out)
}

} // verus!
