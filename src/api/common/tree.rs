use vstd::prelude::*;
use crate::api::common::error::{agrees, ApiError};

verus! {

/// A parsed response document. JSON and YAML bodies both reduce to it, so the
/// envelope and record rules below are independent of the wire format.
pub enum Node {
    Null,
    Bool(bool),
    Int(i128),
    /// A value that fits no record field: a non-integer number, or a tagged
    /// YAML value.
    Opaque,
    Text(String),
    List(Vec<Node>),
    Dict(Vec<(Node, Node)>),
}

/// `k` is the text key `name`.
pub open spec fn is_key(k: Node, name: Seq<char>) -> bool {
    match k {
        Node::Text(s) => s@ == name,
        _ => false,
    }
}

/// The value of the first entry whose key is the text `name`.
pub open spec fn lookup(entries: Seq<(Node, Node)>, name: Seq<char>) -> Option<Node>
    decreases entries.len(),
{
    if entries.len() == 0 {
        None
    } else if is_key(entries[0].0, name) {
        Some(entries[0].1)
    } else {
        lookup(entries.drop_first(), name)
    }
}

/// An optional text field: absent or null reads as `None`, text as itself;
/// any other value is a type mismatch (`None` outside).
pub open spec fn text_field(entries: Seq<(Node, Node)>, name: Seq<char>) -> Option<Option<String>> {
    match lookup(entries, name) {
        None => Some(None),
        Some(Node::Null) => Some(None),
        Some(Node::Text(s)) => Some(Some(s)),
        _ => None,
    }
}

/// An optional integer field with values in `0..=max`.
pub open spec fn int_field(entries: Seq<(Node, Node)>, name: Seq<char>, max: int) -> Option<Option<int>> {
    match lookup(entries, name) {
        None => Some(None),
        Some(Node::Null) => Some(None),
        Some(Node::Int(i)) => if 0 <= i <= max {
            Some(Some(i as int))
        } else {
            None
        },
        _ => None,
    }
}

pub open spec fn u8_field(entries: Seq<(Node, Node)>, name: Seq<char>) -> Option<Option<u8>> {
    match int_field(entries, name, u8::MAX as int) {
        Some(Some(i)) => Some(Some(i as u8)),
        Some(None) => Some(None),
        None => None,
    }
}

pub open spec fn u16_field(entries: Seq<(Node, Node)>, name: Seq<char>) -> Option<Option<u16>> {
    match int_field(entries, name, u16::MAX as int) {
        Some(Some(i)) => Some(Some(i as u16)),
        Some(None) => Some(None),
        None => None,
    }
}

pub open spec fn u32_field(entries: Seq<(Node, Node)>, name: Seq<char>) -> Option<Option<u32>> {
    match int_field(entries, name, u32::MAX as int) {
        Some(Some(i)) => Some(Some(i as u32)),
        Some(None) => Some(None),
        None => None,
    }
}

pub open spec fn u64_field(entries: Seq<(Node, Node)>, name: Seq<char>) -> Option<Option<u64>> {
    match int_field(entries, name, u64::MAX as int) {
        Some(Some(i)) => Some(Some(i as u64)),
        Some(None) => Some(None),
        None => None,
    }
}

/// A required field: present and not null.
pub open spec fn required<T>(f: Option<Option<T>>) -> Option<T> {
    match f {
        Some(Some(v)) => Some(v),
        _ => None,
    }
}

/// `a` and `b` hold the same text.
pub fn same_text(a: &str, b: &str) -> (r: bool)
    ensures
        r == (a@ == b@),
{
    let x = a.to_string();
    let y = b.to_string();
    x == y
}

/// The value of the first entry keyed by the text `name`.
pub fn find_entry<'a>(entries: &'a Vec<(Node, Node)>, name: &str) -> (r: Option<&'a Node>)
    ensures
        match r {
            Some(v) => lookup(entries@, name@) == Some(*v),
            None => lookup(entries@, name@) is None,
        },
{
    let key = name.to_string();
    let mut i: usize = 0;
    assert(entries@.subrange(0, entries@.len() as int) =~= entries@);
    while i < entries.len()
        invariant
            i <= entries@.len(),
            key@ == name@,
            lookup(entries@, name@) == lookup(entries@.subrange(i as int, entries@.len() as int), name@),
        decreases entries@.len() - i,
    {
        let ghost rest = entries@.subrange(i as int, entries@.len() as int);
        assert(rest.drop_first() =~= entries@.subrange(i + 1, entries@.len() as int));
        match &entries[i].0 {
            Node::Text(s) => {
                if *s == key {
                    return Some(&entries[i].1);
                }
            },
            _ => {},
        }
        i = i + 1;
    }
    None
}

/// The node of an optional text field: its text, or null.
pub fn text_node(v: &Option<String>) -> (r: Node)
    ensures
        r == match *v {
            Some(s) => Node::Text(s),
            None => Node::Null,
        },
{
    match v {
        Some(s) => Node::Text(s.clone()),
        None => Node::Null,
    }
}

/// The node of an optional integer field: the integer, or null.
pub fn int_node(v: Option<u64>) -> (r: Node)
    ensures
        r == match v {
            Some(x) => Node::Int(x as i128),
            None => Node::Null,
        },
{
    match v {
        Some(x) => Node::Int(x as i128),
        None => Node::Null,
    }
}

/// A text key node.
pub fn key_node(name: &str) -> (r: Node)
    ensures
        r is Text && r->Text_0@ == name@,
{
    Node::Text(name.to_string())
}

fn mismatch(name: &str) -> (r: ApiError)
    ensures
        r is Deserialization,
{
    ApiError::Deserialization(name.to_string())
}

/// Reads an optional text field.
pub fn opt_text(entries: &Vec<(Node, Node)>, name: &str) -> (r: Result<Option<String>, ApiError>)
    ensures
        agrees(r, text_field(entries@, name@)),
{
    match find_entry(entries, name) {
        None => Ok(None),
        Some(Node::Null) => Ok(None),
        Some(Node::Text(s)) => Ok(Some(s.clone())),
        Some(_) => Err(mismatch(name)),
    }
}

/// Reads an optional integer field with values in `0..=max`.
pub fn opt_int(entries: &Vec<(Node, Node)>, name: &str, max: u64) -> (r: Result<Option<u64>, ApiError>)
    ensures
        match int_field(entries@, name@, max as int) {
            Some(Some(i)) => r == Ok::<Option<u64>, ApiError>(Some(i as u64)),
            Some(None) => r == Ok::<Option<u64>, ApiError>(None),
            None => r is Err && r->Err_0 is Deserialization,
        },
{
    match find_entry(entries, name) {
        None => Ok(None),
        Some(Node::Null) => Ok(None),
        Some(Node::Int(i)) => {
            if 0 <= *i && *i <= max as i128 {
                Ok(Some(*i as u64))
            } else {
                Err(mismatch(name))
            }
        },
        Some(_) => Err(mismatch(name)),
    }
}

pub fn opt_u8(entries: &Vec<(Node, Node)>, name: &str) -> (r: Result<Option<u8>, ApiError>)
    ensures
        agrees(r, u8_field(entries@, name@)),
{
    match opt_int(entries, name, u8::MAX as u64)? {
        Some(v) => Ok(Some(v as u8)),
        None => Ok(None),
    }
}

pub fn opt_u16(entries: &Vec<(Node, Node)>, name: &str) -> (r: Result<Option<u16>, ApiError>)
    ensures
        agrees(r, u16_field(entries@, name@)),
{
    match opt_int(entries, name, u16::MAX as u64)? {
        Some(v) => Ok(Some(v as u16)),
        None => Ok(None),
    }
}

pub fn opt_u32(entries: &Vec<(Node, Node)>, name: &str) -> (r: Result<Option<u32>, ApiError>)
    ensures
        agrees(r, u32_field(entries@, name@)),
{
    match opt_int(entries, name, u32::MAX as u64)? {
        Some(v) => Ok(Some(v as u32)),
        None => Ok(None),
    }
}

pub fn opt_u64(entries: &Vec<(Node, Node)>, name: &str) -> (r: Result<Option<u64>, ApiError>)
    ensures
        agrees(r, u64_field(entries@, name@)),
{
    opt_int(entries, name, u64::MAX)
}

/// Reads a required text field.
pub fn req_text(entries: &Vec<(Node, Node)>, name: &str) -> (r: Result<String, ApiError>)
    ensures
        agrees(r, required(text_field(entries@, name@))),
{
    match opt_text(entries, name)? {
        Some(s) => Ok(s),
        None => Err(mismatch(name)),
    }
}

/// Reads a required field of type `u8`.
pub fn req_u8(entries: &Vec<(Node, Node)>, name: &str) -> (r: Result<u8, ApiError>)
    ensures
        agrees(r, required(u8_field(entries@, name@))),
{
    match opt_u8(entries, name)? {
        Some(v) => Ok(v),
        None => Err(mismatch(name)),
    }
}

/// Reads a required field of type `u16`.
pub fn req_u16(entries: &Vec<(Node, Node)>, name: &str) -> (r: Result<u16, ApiError>)
    ensures
        agrees(r, required(u16_field(entries@, name@))),
{
    match opt_u16(entries, name)? {
        Some(v) => Ok(v),
        None => Err(mismatch(name)),
    }
}

/// Reads a required field of type `u32`.
pub fn req_u32(entries: &Vec<(Node, Node)>, name: &str) -> (r: Result<u32, ApiError>)
    ensures
        agrees(r, required(u32_field(entries@, name@))),
{
    match opt_u32(entries, name)? {
        Some(v) => Ok(v),
        None => Err(mismatch(name)),
    }
}

} // verus!
