use vstd::prelude::*;
use vstd::utf8::valid_utf8;
use crate::api::common::client::{check_status, is_success, status_failure};
use crate::api::common::error::ApiError;
use crate::api::common::params::opt_view;
use crate::api::common::parse::{gunzip, gunzip_bytes, json_tree, parse_json, parse_yaml, yaml_tree};
use crate::api::common::response::{count_record, counted, decode_counted, has_keys, holds_keys, Entity};
use crate::api::common::selector::texts;
use crate::api::common::tree::{find_entry, lookup, same_text, Node};

verus! {

// The first-generation clients read a body as UTF-8 text, and their search
// answers carry the total count as a plain number (zero where none is sent).
// A field selector makes their records lenient.

/// How an `out` value is read by the first-generation clients: `Some(true)`
/// for JSON, `Some(false)` for YAML (also for unset or unknown values), and
/// `None` for the unsupported formats PHP, Atom and JSONP.
pub open spec fn body_format(out: Option<Seq<char>>) -> Option<bool> {
    match out {
        None => Some(false),
        Some(o) => if o == "json"@ {
            Some(true)
        } else if o == "php"@ || o == "atom"@ || o == "jsonp"@ {
            None
        } else {
            Some(false)
        },
    }
}

/// Relies on std::str::from_utf8: whether the bytes are valid UTF-8.
#[verifier::external_body]
fn is_utf8(data: &[u8]) -> (r: bool)
    ensures
        r == valid_utf8(data@),
{
    std::str::from_utf8(data).is_ok()
}

/// Why a body could not be read.
#[derive(Debug, Clone, Copy, PartialEq, Eq, Structural)]
pub enum BodyFault {
    /// The transport answered with a status outside 2xx.
    Status,
    /// The requested format is not supported.
    Format,
    /// The gzip stream is invalid.
    Gzip,
    /// The text is not UTF-8, or no document of its format.
    Text,
}

/// `e` is the error for `f`, where the status was `status`.
pub open spec fn fault_error(e: ApiError, f: BodyFault, status: u16) -> bool {
    match f {
        BodyFault::Status => status_failure(e, status),
        BodyFault::Format => e is InvalidFormat,
        BodyFault::Gzip => e is GzipDecompression,
        BodyFault::Text => e is Deserialization,
    }
}

/// The document in a response as the first-generation clients read it: a
/// status outside 2xx fails first, then an unsupported format, then a bad
/// gzip stream (where `gzip` is on), then text that is not UTF-8 or not a
/// document. An empty body is the empty document `Null`.
pub open spec fn body_doc(status: u16, data: Seq<u8>, gzip: bool, out: Option<Seq<char>>) -> Result<Node, BodyFault> {
    if !is_success(status) {
        Err(BodyFault::Status)
    } else {
        match body_format(out) {
            None => Err(BodyFault::Format),
            Some(is_json) => {
                let plain = if gzip {
                    gunzip(data)
                } else {
                    Some(data)
                };
                match plain {
                    None => Err(BodyFault::Gzip),
                    Some(text) => if text.len() == 0 {
                        Ok(Node::Null)
                    } else if !valid_utf8(text) {
                        Err(BodyFault::Text)
                    } else {
                        match if is_json {
                            json_tree(text)
                        } else {
                            yaml_tree(text)
                        } {
                            None => Err(BodyFault::Text),
                            Some(t) => Ok(t),
                        }
                    },
                }
            },
        }
    }
}

/// `r` is the outcome that `body_doc` describes.
pub open spec fn body_read(r: Result<Node, ApiError>, status: u16, data: Seq<u8>, gzip: bool, out: Option<Seq<char>>) -> bool {
    match body_doc(status, data, gzip, out) {
        Ok(t) => r == Ok::<Node, ApiError>(t),
        Err(f) => r is Err && fault_error(r->Err_0, f, status),
    }
}

/// Reads a response as the first-generation clients do.
pub fn read_body(status: u16, data: Vec<u8>, gzip: bool, out: &Option<String>) -> (r: Result<Node, ApiError>)
    ensures
        body_read(r, status, data@, gzip, opt_view(*out)),
{
    proof {
        reveal_strlit("json");
        reveal_strlit("php");
        reveal_strlit("jsonp");
        reveal_strlit("atom");
        assert("json"@.len() != "jsonp"@.len());
        assert("json"@[0] != "php"@[0] && "json"@[0] != "atom"@[0]);
    }
    let data = check_status(status, data)?;
    let is_json = match out {
        None => false,
        Some(o) => {
            let o = o.as_str();
            if same_text(o, "json") {
                true
            } else if same_text(o, "php") || same_text(o, "atom") || same_text(o, "jsonp") {
                return Err(ApiError::InvalidFormat("output format is not supported".to_string()));
            } else {
                false
            }
        },
    };
    let text = if gzip {
        match gunzip_bytes(data.as_slice()) {
            Ok(t) => t,
            Err(e) => {
                return Err(ApiError::GzipDecompression(e));
            },
        }
    } else {
        data
    };
    if text.len() == 0 {
        return Ok(Node::Null);
    }
    if !is_utf8(text.as_slice()) {
        return Err(ApiError::Deserialization("body is not UTF-8".to_string()));
    }
    let parsed = if is_json {
        parse_json(text.as_slice())
    } else {
        parse_yaml(text.as_slice())
    };
    match parsed {
        Ok(t) => Ok(t),
        Err(e) => Err(ApiError::Deserialization(e)),
    }
}

/// The member `key` of a map node, as indexing a document reads it.
pub open spec fn member(n: Node, key: Seq<char>) -> Option<Node> {
    match n {
        Node::Dict(e) => lookup(e@, key),
        _ => None,
    }
}

/// The member `key` where it is text.
pub open spec fn loose_text(n: Node, key: Seq<char>) -> Option<String> {
    match member(n, key) {
        Some(Node::Text(s)) => Some(s),
        _ => None,
    }
}

/// The member `key` where it is an unsigned 64-bit integer.
pub open spec fn loose_u64(n: Node, key: Seq<char>) -> Option<u64> {
    match member(n, key) {
        Some(Node::Int(i)) => if 0 <= i <= u64::MAX {
            Some(i as u64)
        } else {
            None
        },
        _ => None,
    }
}

pub open spec fn narrow_u32(v: Option<u64>) -> Option<u32> {
    match v {
        Some(x) => Some(x as u32),
        None => None,
    }
}

pub open spec fn narrow_u16(v: Option<u64>) -> Option<u16> {
    match v {
        Some(x) => Some(x as u16),
        None => None,
    }
}

pub open spec fn narrow_u8(v: Option<u64>) -> Option<u8> {
    match v {
        Some(x) => Some(x as u8),
        None => None,
    }
}

pub fn member_of<'a>(n: &'a Node, key: &str) -> (r: Option<&'a Node>)
    ensures
        match r {
            Some(v) => member(*n, key@) == Some(*v),
            None => member(*n, key@) is None,
        },
{
    match n {
        Node::Dict(e) => find_entry(e, key),
        _ => None,
    }
}

pub fn text_of(n: &Node, key: &str) -> (r: Option<String>)
    ensures
        r == loose_text(*n, key@),
{
    match member_of(n, key) {
        Some(Node::Text(s)) => Some(s.clone()),
        _ => None,
    }
}

pub fn u64_of(n: &Node, key: &str) -> (r: Option<u64>)
    ensures
        r == loose_u64(*n, key@),
{
    match member_of(n, key) {
        Some(Node::Int(i)) => if 0 <= *i && *i <= u64::MAX as i128 {
            Some(*i as u64)
        } else {
            None
        },
        _ => None,
    }
}

pub fn u32_of(n: &Node, key: &str) -> (r: Option<u32>)
    ensures
        r == narrow_u32(loose_u64(*n, key@)),
{
    match u64_of(n, key) {
        Some(x) => Some(x as u32),
        None => None,
    }
}

pub fn u16_of(n: &Node, key: &str) -> (r: Option<u16>)
    ensures
        r == narrow_u16(loose_u64(*n, key@)),
{
    match u64_of(n, key) {
        Some(x) => Some(x as u16),
        None => None,
    }
}

pub fn u8_of(n: &Node, key: &str) -> (r: Option<u8>)
    ensures
        r == narrow_u8(loose_u64(*n, key@)),
{
    match u64_of(n, key) {
        Some(x) => Some(x as u8),
        None => None,
    }
}

/// `codes` holds `code`.
pub fn has_code(codes: &Vec<&str>, code: &str) -> (r: bool)
    ensures
        r == texts(codes@).contains(code@),
{
    let mut i: usize = 0;
    while i < codes.len()
        invariant
            i <= codes@.len(),
            forall|j: int| 0 <= j < i ==> texts(codes@)[j] != code@,
        decreases codes@.len() - i,
    {
        if same_text(codes[i], code) {
            assert(texts(codes@)[i as int] == code@);
            return true;
        }
        i = i + 1;
    }
    proof {
        if texts(codes@).contains(code@) {
            let k = choose|k: int| 0 <= k < texts(codes@).len() && texts(codes@)[k] == code@;
            assert(texts(codes@)[k] == code@);
        }
    }
    false
}

/// A record that can also be read leniently, field by field, where a field
/// selector names the fields: a selected field that is absent or of another
/// type reads as `None`, and so does every field not selected.
pub trait Selectable: Entity {
    spec fn selected(n: Node, codes: Seq<Seq<char>>) -> Self;

    fn select(n: &Node, codes: &Vec<&str>) -> (r: Self)
        ensures
            r == Self::selected(*n, texts(codes@)),
    ;
}

/// One record as a first-generation search reads it: strictly without a
/// field selector, leniently with one.
pub open spec fn record_with<E: Selectable>(n: Node, codes: Option<Seq<Seq<char>>>) -> Option<E> {
    match codes {
        None => E::decoded(n),
        Some(c) => Some(E::selected(n, c)),
    }
}

pub open spec fn records_with<E: Selectable>(items: Seq<Node>, codes: Option<Seq<Seq<char>>>) -> Option<Seq<E>>
    decreases items.len(),
{
    if items.len() == 0 {
        Some(Seq::empty())
    } else {
        match (records_with::<E>(items.drop_last(), codes), record_with::<E>(items.last(), codes)) {
            (Some(xs), Some(x)) => Some(xs.push(x)),
            _ => None,
        }
    }
}

proof fn lemma_records_prefix_fails<E: Selectable>(items: Seq<Node>, i: int, codes: Option<Seq<Seq<char>>>)
    requires
        0 <= i <= items.len(),
        records_with::<E>(items.take(i), codes) is None,
    ensures
        records_with::<E>(items, codes) is None,
    decreases items.len() - i,
{
    if i < items.len() {
        assert(items.take(i + 1).drop_last() =~= items.take(i));
        lemma_records_prefix_fails::<E>(items, i + 1, codes);
    } else {
        assert(items.take(i) =~= items);
    }
}

/// The count a first-generation answer reports: that of a leading count
/// record, or zero where there is none or it is no unsigned integer.
pub open spec fn reported_count(c: Option<u32>) -> u32 {
    match c {
        Some(n) => n,
        None => 0,
    }
}

/// A first-generation search answer: a list whose first element, where it is
/// a count record, gives the count and is no record; or one bare map that
/// holds every key of the record type's shape, which is that one record. Any
/// other document holds no records; the count is zero but for a count record.
pub open spec fn search_answer_with<E: Selectable>(tree: Node, codes: Option<Seq<Seq<char>>>) -> Option<(u32, Seq<E>)> {
    match tree {
        Node::List(items) => if items@.len() > 0 && count_record(items@[0]) is Some {
            match records_with::<E>(items@.skip(1), codes) {
                Some(es) => Some((reported_count(count_record(items@[0])->0), es)),
                None => None,
            }
        } else {
            match records_with::<E>(items@.skip(0), codes) {
                Some(es) => Some((0u32, es)),
                None => None,
            }
        },
        Node::Dict(e) => if has_keys(e@, E::shape()) {
            match record_with::<E>(tree, codes) {
                Some(x) => Some((0u32, seq![x])),
                None => None,
            }
        } else {
            Some((0u32, Seq::empty()))
        },
        _ => Some((0u32, Seq::empty())),
    }
}

/// The same answer where records are always read strictly.
pub open spec fn search_answer<E: Entity>(tree: Node) -> Option<(u32, Seq<E>)> {
    match counted::<E>(tree) {
        Some((c, es)) => Some((reported_count(c), es)),
        None => None,
    }
}

pub fn decode_search_answer<E: Entity>(tree: &Node) -> (r: Result<(u32, Vec<E>), ApiError>)
    ensures
        match search_answer::<E>(*tree) {
            Some((c, es)) => r is Ok && r->Ok_0.0 == c && r->Ok_0.1@ == es,
            None => r is Err && r->Err_0 is Deserialization,
        },
{
    let (c, es) = decode_counted::<E>(tree)?;
    let count = match c {
        Some(n) => n,
        None => 0,
    };
    Ok((count, es))
}

/// The texts of a split field selector.
pub open spec fn codes_of(of: Option<Vec<&str>>) -> Option<Seq<Seq<char>>> {
    match of {
        Some(c) => Some(texts(c@)),
        None => None,
    }
}

/// Reads `items[start..]` as records under the field selector `of`.
fn records_from<E: Selectable>(items: &Vec<Node>, start: usize, of: &Option<Vec<&str>>) -> (r: Result<Vec<E>, ApiError>)
    requires
        start <= items@.len(),
    ensures
        match records_with::<E>(items@.skip(start as int), codes_of(*of)) {
            Some(es) => r is Ok && r->Ok_0@ == es,
            None => r is Err && r->Err_0 is Deserialization,
        },
{
    let ghost codes = codes_of(*of);
    let ghost rest = items@.skip(start as int);
    let mut out: Vec<E> = Vec::new();
    let mut i: usize = start;
    assert(rest.take(0) =~= Seq::<Node>::empty());
    while i < items.len()
        invariant
            start <= i <= items@.len(),
            rest == items@.skip(start as int),
            codes == codes_of(*of),
            records_with::<E>(rest.take(i - start), codes) == Some(out@),
        decreases items@.len() - i,
    {
        assert(rest.take(i - start + 1).drop_last() =~= rest.take(i - start));
        assert(rest.take(i - start + 1).last() == items@[i as int]);
        match of {
            Some(c) => {
                let e = E::select(&items[i], c);
                out.push(e);
            },
            None => match E::from_node(&items[i]) {
                Ok(e) => {
                    out.push(e);
                },
                Err(err) => {
                    proof {
                        lemma_records_prefix_fails::<E>(rest, i - start + 1, codes);
                    }
                    return Err(err);
                },
            },
        }
        i = i + 1;
    }
    assert(rest.take(i - start) =~= rest);
    Ok(out)
}

/// Reads a first-generation search answer; `of` is the request's field
/// selector, split at `-`.
pub fn decode_search_answer_with<E: Selectable>(tree: &Node, of: &Option<Vec<&str>>) -> (r: Result<(u32, Vec<E>), ApiError>)
    ensures
        match search_answer_with::<E>(*tree, codes_of(*of)) {
            Some((c, es)) => r is Ok && r->Ok_0.0 == c && r->Ok_0.1@ == es,
            None => r is Err && r->Err_0 is Deserialization,
        },
{
    match tree {
        Node::List(items) => {
            let mut count: u32 = 0;
            let mut start: usize = 0;
            if items.len() > 0 {
                match &items[0] {
                    Node::Dict(entries) => {
                        match find_entry(entries, "allcount") {
                            Some(v) => {
                                count = match v {
                                    Node::Int(i) => if 0 <= *i && *i <= u64::MAX as i128 {
                                        (*i as u64) as u32
                                    } else {
                                        0
                                    },
                                    _ => 0,
                                };
                                start = 1;
                            },
                            None => {},
                        }
                    },
                    _ => {},
                }
            }
            let es = records_from::<E>(items, start, of)?;
            Ok((count, es))
        },
        Node::Dict(entries) => {
            let keys = E::shape_keys();
            if !holds_keys(entries, &keys) {
                return Ok((0, Vec::new()));
            }
            let x = match of {
                Some(c) => E::select(tree, c),
                None => E::from_node(tree)?,
            };
            let mut out: Vec<E> = Vec::new();
            out.push(x);
            assert(out@ =~= seq![x]);
            Ok((0, out))
        },
        _ => Ok((0, Vec::new())),
    }
}

} // verus!
