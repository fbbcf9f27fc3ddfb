use vstd::prelude::*;
use crate::api::common::error::{agrees, ApiError};
use crate::api::common::parse::{gunzip, gunzip_bytes, json_tree, parse_json, parse_yaml, yaml_tree};
use crate::api::common::tree::{find_entry, lookup, same_text, Node};

verus! {

/// The output format a request asks the server for.
#[derive(Debug, Clone)]
pub enum OutputFormat {
    Yaml,
    Json,
    Php,
    Atom,
    /// JSON wrapped in a call of the named callback.
    Jsonp(String),
}

impl PartialEq for OutputFormat {
    fn eq(&self, other: &OutputFormat) -> (r: bool) {
        match (self, other) {
            (OutputFormat::Yaml, OutputFormat::Yaml) => true,
            (OutputFormat::Json, OutputFormat::Json) => true,
            (OutputFormat::Php, OutputFormat::Php) => true,
            (OutputFormat::Atom, OutputFormat::Atom) => true,
            (OutputFormat::Jsonp(a), OutputFormat::Jsonp(b)) => *a == *b,
            _ => false,
        }
    }
}

impl vstd::std_specs::cmp::PartialEqSpecImpl for OutputFormat {
    open spec fn obeys_eq_spec() -> bool {
        true
    }

    open spec fn eq_spec(&self, other: &OutputFormat) -> bool {
        match (*self, *other) {
            (OutputFormat::Jsonp(a), OutputFormat::Jsonp(b)) => a@ == b@,
            (OutputFormat::Jsonp(_), _) => false,
            (_, OutputFormat::Jsonp(_)) => false,
            _ => *self == *other,
        }
    }
}

impl OutputFormat {
    /// The formats that are declared but not decoded: PHP serialize, Atom, JSONP.
    pub open spec fn is_unsupported(self) -> bool {
        self is Php || self is Atom || self is Jsonp
    }

    /// `r` is the format that the `out` value `s` names: an unknown name reads
    /// as YAML, the server's default; JSONP takes the callback `cb`, or the name
    /// "callback" without one.
    pub open spec fn named(r: Self, s: Seq<char>, cb: Option<Seq<char>>) -> bool {
        if s == "json"@ {
            r == OutputFormat::Json
        } else if s == "yaml"@ {
            r == OutputFormat::Yaml
        } else if s == "php"@ {
            r == OutputFormat::Php
        } else if s == "atom"@ {
            r == OutputFormat::Atom
        } else if s == "jsonp"@ {
            r is Jsonp && r->Jsonp_0@ == match cb {
                Some(c) => c,
                None => "callback"@,
            }
        } else {
            r == OutputFormat::Yaml
        }
    }

    /// Reads the `out` parameter.
    pub fn from_str(s: &str, callback: Option<&str>) -> (r: Self)
        ensures
            Self::named(r, s@, match callback {
                Some(cb) => Some(cb@),
                None => None,
            }),
    {
        proof {
            reveal_strlit("json");
            reveal_strlit("yaml");
            reveal_strlit("php");
            reveal_strlit("atom");
            reveal_strlit("jsonp");
            assert("json"@.len() != "jsonp"@.len());
            assert("json"@[0] != "yaml"@[0] && "json"@[0] != "php"@[0] && "json"@[0] != "atom"@[0]);
            assert("yaml"@[0] != "php"@[0] && "yaml"@[0] != "atom"@[0] && "yaml"@[0] != "jsonp"@[0]);
            assert("php"@[0] != "atom"@[0] && "php"@[0] != "jsonp"@[0] && "atom"@[0] != "jsonp"@[0]);
        }
        if same_text(s, "json") {
            OutputFormat::Json
        } else if same_text(s, "yaml") {
            OutputFormat::Yaml
        } else if same_text(s, "php") {
            OutputFormat::Php
        } else if same_text(s, "atom") {
            OutputFormat::Atom
        } else if same_text(s, "jsonp") {
            match callback {
                Some(cb) => OutputFormat::Jsonp(cb.to_string()),
                None => OutputFormat::Jsonp("callback".to_string()),
            }
        } else {
            OutputFormat::Yaml
        }
    }

    /// The name of the format as the `out` parameter spells it.
    pub open spec fn name(self) -> Seq<char> {
        match self {
            OutputFormat::Yaml => "yaml"@,
            OutputFormat::Json => "json"@,
            OutputFormat::Php => "php"@,
            OutputFormat::Atom => "atom"@,
            OutputFormat::Jsonp(_) => "jsonp"@,
        }
    }

    pub fn to_string(&self) -> (r: String)
        ensures
            r@ == self.name(),
    {
        match self {
            OutputFormat::Yaml => "yaml".to_string(),
            OutputFormat::Json => "json".to_string(),
            OutputFormat::Php => "php".to_string(),
            OutputFormat::Atom => "atom".to_string(),
            OutputFormat::Jsonp(_) => "jsonp".to_string(),
        }
    }
}

/// A record type that is read from one node of a response document.
pub trait Entity: Sized {
    /// The record that `n` holds; `None` where a field has the wrong type.
    spec fn decoded(n: Node) -> Option<Self>;

    /// The keys that mark a bare map as one record of this type.
    spec fn shape() -> Seq<Seq<char>>;

    fn shape_keys() -> (r: Vec<&'static str>)
        ensures
            key_names(r@) == Self::shape(),
    ;

    fn from_node(n: &Node) -> (r: Result<Self, ApiError>)
        ensures
            agrees(r, Self::decoded(*n)),
    ;
}

/// `r` is a response whose view is what `s` describes, or a deserialization
/// error where `s` is `None`.
pub open spec fn agrees_view<T: View>(r: Result<T, ApiError>, s: Option<T::V>) -> bool {
    match s {
        Some(v) => r is Ok && r->Ok_0@ == v,
        None => r is Err && r->Err_0 is Deserialization,
    }
}

/// The document in a JSON body: `Null` for an empty body, else what serde_json
/// reads.
pub open spec fn json_doc(bytes: Seq<u8>) -> Option<Node> {
    if bytes.len() == 0 {
        Some(Node::Null)
    } else {
        json_tree(bytes)
    }
}

/// The document in a YAML body: `Null` for an empty body, else what serde_yaml
/// reads.
pub open spec fn yaml_doc(bytes: Seq<u8>) -> Option<Node> {
    if bytes.len() == 0 {
        Some(Node::Null)
    } else {
        yaml_tree(bytes)
    }
}

/// A response type that is read from a whole response document.
pub trait ApiResponse: Sized + View {
    /// The view of the response that the document `tree` holds; `None` where a
    /// record in it does not fit its type.
    spec fn decoded(tree: Node) -> Option<Self::V>;

    fn from_tree(tree: &Node) -> (r: Result<Self, ApiError>)
        ensures
            agrees_view(r, Self::decoded(*tree)),
    ;

    /// Decodes a JSON body; an empty body is the empty document.
    fn from_json(data: &[u8]) -> (r: Result<Self, ApiError>)
        ensures
            data@.len() == 0 ==> agrees_view(r, Self::decoded(Node::Null)),
            match json_doc(data@) {
                Some(t) => agrees_view(r, Self::decoded(t)),
                None => r is Err && r->Err_0 is Deserialization,
            },
    {
        if data.len() == 0 {
            return Self::from_tree(&Node::Null);
        }
        match parse_json(data) {
            Ok(tree) => Self::from_tree(&tree),
            Err(e) => Err(ApiError::Deserialization(e)),
        }
    }

    /// Decodes a YAML body; an empty body is the empty document.
    fn from_yaml(data: &[u8]) -> (r: Result<Self, ApiError>)
        ensures
            data@.len() == 0 ==> agrees_view(r, Self::decoded(Node::Null)),
            match yaml_doc(data@) {
                Some(t) => agrees_view(r, Self::decoded(t)),
                None => r is Err && r->Err_0 is Deserialization,
            },
    {
        if data.len() == 0 {
            return Self::from_tree(&Node::Null);
        }
        match parse_yaml(data) {
            Ok(tree) => Self::from_tree(&tree),
            Err(e) => Err(ApiError::Deserialization(e)),
        }
    }
}

/// Each node of `items` read as a record, in order; `None` where one fails.
pub open spec fn decode_each<E: Entity>(items: Seq<Node>) -> Option<Seq<E>>
    decreases items.len(),
{
    if items.len() == 0 {
        Some(Seq::empty())
    } else {
        match (decode_each::<E>(items.drop_last()), E::decoded(items.last())) {
            (Some(xs), Some(x)) => Some(xs.push(x)),
            _ => None,
        }
    }
}

proof fn lemma_decode_prefix_fails<E: Entity>(items: Seq<Node>, i: int)
    requires
        0 <= i <= items.len(),
        decode_each::<E>(items.take(i)) is None,
    ensures
        decode_each::<E>(items) is None,
    decreases items.len() - i,
{
    if i < items.len() {
        assert(items.take(i + 1).drop_last() =~= items.take(i));
        lemma_decode_prefix_fails::<E>(items, i + 1);
    } else {
        assert(items.take(i) =~= items);
    }
}

/// Reads the nodes `items[start..]` as records, all or nothing.
pub fn decode_from<E: Entity>(items: &Vec<Node>, start: usize) -> (r: Result<Vec<E>, ApiError>)
    requires
        start <= items@.len(),
    ensures
        match decode_each::<E>(items@.skip(start as int)) {
            Some(es) => r is Ok && r->Ok_0@ == es,
            None => r is Err && r->Err_0 is Deserialization,
        },
{
    let ghost rest = items@.skip(start as int);
    let mut out: Vec<E> = Vec::new();
    let mut i: usize = start;
    assert(rest.take(0) =~= Seq::<Node>::empty());
    while i < items.len()
        invariant
            start <= i <= items@.len(),
            rest == items@.skip(start as int),
            decode_each::<E>(rest.take(i - start)) == Some(out@),
        decreases items@.len() - i,
    {
        assert(rest.take(i - start + 1).drop_last() =~= rest.take(i - start));
        assert(rest.take(i - start + 1).last() == items@[i as int]);
        match E::from_node(&items[i]) {
            Ok(e) => {
                out.push(e);
            },
            Err(err) => {
                proof {
                    lemma_decode_prefix_fails::<E>(rest, i - start + 1);
                }
                return Err(err);
            },
        }
        i = i + 1;
    }
    assert(rest.take(i - start) =~= rest);
    Ok(out)
}

/// The total count that a leading count record carries: its `allcount` read as
/// a `u64` and narrowed to `u32`, or `None` where it is no unsigned integer.
pub open spec fn count_value(v: Node) -> Option<u32> {
    match v {
        Node::Int(i) => if 0 <= i <= u64::MAX {
            Some((i as u64) as u32)
        } else {
            None
        },
        _ => None,
    }
}

/// `Some(count)` where `item` is a count record (a map with an `allcount` key).
pub open spec fn count_record(item: Node) -> Option<Option<u32>> {
    match item {
        Node::Dict(e) => match lookup(e@, "allcount"@) {
            Some(v) => Some(count_value(v)),
            None => None,
        },
        _ => None,
    }
}

/// The envelope of a search result: a list whose first element may be a count
/// record, which goes to the count and not to the records; or one bare map
/// that holds every key of the record type's shape, which is that one record.
/// Any other document holds no records.
pub open spec fn counted<E: Entity>(tree: Node) -> Option<(Option<u32>, Seq<E>)> {
    match tree {
        Node::List(items) => if items@.len() > 0 && count_record(items@[0]) is Some {
            match decode_each::<E>(items@.skip(1)) {
                Some(es) => Some((count_record(items@[0])->0, es)),
                None => None,
            }
        } else {
            match decode_each::<E>(items@.skip(0)) {
                Some(es) => Some((None, es)),
                None => None,
            }
        },
        Node::Dict(e) => if has_keys(e@, E::shape()) {
            match E::decoded(tree) {
                Some(x) => Some((None, seq![x])),
                None => None,
            }
        } else {
            Some((None, Seq::empty()))
        },
        _ => Some((None, Seq::empty())),
    }
}

/// Reads a search-result envelope into its count and its records.
pub fn decode_counted<E: Entity>(tree: &Node) -> (r: Result<(Option<u32>, Vec<E>), ApiError>)
    ensures
        match counted::<E>(*tree) {
            Some((c, es)) => r is Ok && r->Ok_0.0 == c && r->Ok_0.1@ == es,
            None => r is Err && r->Err_0 is Deserialization,
        },
{
    match tree {
        Node::List(items) => {
            let mut count: Option<u32> = None;
            let mut start: usize = 0;
            if items.len() > 0 {
                match &items[0] {
                    Node::Dict(entries) => {
                        match find_entry(entries, "allcount") {
                            Some(v) => {
                                count = match v {
                                    Node::Int(i) => if 0 <= *i && *i <= u64::MAX as i128 {
                                        Some((*i as u64) as u32)
                                    } else {
                                        None
                                    },
                                    _ => None,
                                };
                                start = 1;
                            },
                            None => {},
                        }
                    },
                    _ => {},
                }
            }
            let es = decode_from::<E>(items, start)?;
            Ok((count, es))
        },
        Node::Dict(_) => {
            let keys = E::shape_keys();
            let es = decode_listed::<E>(tree, &keys)?;
            Ok((None, es))
        },
        _ => Ok((None, Vec::new())),
    }
}

/// Every one of `keys` has an entry in `entries`.
pub open spec fn has_keys(entries: Seq<(Node, Node)>, keys: Seq<Seq<char>>) -> bool {
    forall|k: int| 0 <= k < keys.len() ==> (#[trigger] lookup(entries, keys[k])) is Some
}

/// The envelope of a rank list: a list of records, or one bare record that
/// holds all of `keys`. Any other document holds no records.
pub open spec fn listed<E: Entity>(tree: Node, keys: Seq<Seq<char>>) -> Option<Seq<E>> {
    match tree {
        Node::List(items) => decode_each::<E>(items@.skip(0)),
        Node::Dict(e) => if has_keys(e@, keys) {
            match E::decoded(tree) {
                Some(x) => Some(seq![x]),
                None => None,
            }
        } else {
            Some(Seq::empty())
        },
        _ => Some(Seq::empty()),
    }
}

/// The texts of `keys`.
pub open spec fn key_names(keys: Seq<&str>) -> Seq<Seq<char>> {
    keys.map_values(|k: &str| k@)
}

/// Whether `entries` holds every one of `keys`.
pub fn holds_keys(entries: &Vec<(Node, Node)>, keys: &Vec<&str>) -> (r: bool)
    ensures
        r == has_keys(entries@, key_names(keys@)),
{
    let ghost names = key_names(keys@);
    let mut k: usize = 0;
    while k < keys.len()
        invariant
            k <= keys@.len(),
            names == key_names(keys@),
            forall|j: int| 0 <= j < k ==> (#[trigger] lookup(entries@, names[j])) is Some,
        decreases keys@.len() - k,
    {
        if find_entry(entries, keys[k]).is_none() {
            assert(names[k as int] == keys@[k as int]@);
            assert(lookup(entries@, names[k as int]) is None);
            return false;
        }
        k = k + 1;
    }
    true
}

/// Reads a rank-list envelope whose bare-record form is told by `keys`.
pub fn decode_listed<E: Entity>(tree: &Node, keys: &Vec<&str>) -> (r: Result<Vec<E>, ApiError>)
    ensures
        match listed::<E>(*tree, key_names(keys@)) {
            Some(es) => r is Ok && r->Ok_0@ == es,
            None => r is Err && r->Err_0 is Deserialization,
        },
{
    let ghost names = key_names(keys@);
    match tree {
        Node::List(items) => decode_from::<E>(items, 0),
        Node::Dict(entries) => {
            if !holds_keys(entries, keys) {
                return Ok(Vec::new());
            }
            let x = E::from_node(tree)?;
            let mut out: Vec<E> = Vec::new();
            out.push(x);
            assert(out@ =~= seq![x]);
            Ok(out)
        },
        _ => Ok(Vec::new()),
    }
}

/// An empty list holds no count and no records.
pub proof fn lemma_empty_list<E: Entity>(items: Vec<Node>)
    requires
        items@.len() == 0,
    ensures
        counted::<E>(Node::List(items)) == Some((None::<u32>, Seq::<E>::empty())),
        listed::<E>(Node::List(items), seq![]) == Some(Seq::<E>::empty()),
{
    assert(items@.skip(0) =~= Seq::<Node>::empty());
}

/// The empty document, which an empty body reads as, holds no count and no
/// records.
pub proof fn lemma_empty_document<E: Entity>(keys: Seq<Seq<char>>)
    ensures
        counted::<E>(Node::Null) == Some((None::<u32>, Seq::<E>::empty())),
        listed::<E>(Node::Null, keys) == Some(Seq::<E>::empty()),
{
}

/// A list of a count record and one record reads as that count and that record.
pub proof fn lemma_count_then_record<E: Entity>(items: Vec<Node>, count: Vec<(Node, Node)>, n: u32, e: E)
    requires
        items@.len() == 2,
        items@[0] == Node::Dict(count),
        lookup(count@, "allcount"@) == Some(Node::Int(n as i128)),
        E::decoded(items@[1]) == Some(e),
    ensures
        counted::<E>(Node::List(items)) == Some((Some(n), seq![e])),
{
    let rest = items@.skip(1);
    assert(rest.drop_last() =~= Seq::<Node>::empty());
    assert(decode_each::<E>(Seq::<Node>::empty()) == Some(Seq::<E>::empty()));
    assert(rest.last() == items@[1]);
    assert(decode_each::<E>(rest) == Some(Seq::<E>::empty().push(e)));
    assert(seq![e] =~= Seq::<E>::empty().push(e));
}

/// A list of one record that is no count record reads as that record and no
/// count.
pub proof fn lemma_single_record<E: Entity>(items: Vec<Node>, e: E)
    requires
        items@.len() == 1,
        count_record(items@[0]) is None,
        E::decoded(items@[0]) == Some(e),
    ensures
        counted::<E>(Node::List(items)) == Some((None::<u32>, seq![e])),
{
    let all = items@.skip(0);
    assert(all =~= items@);
    assert(all.drop_last() =~= Seq::<Node>::empty());
    assert(decode_each::<E>(Seq::<Node>::empty()) == Some(Seq::<E>::empty()));
    assert(decode_each::<E>(all) == Some(Seq::<E>::empty().push(e)));
    assert(seq![e] =~= Seq::<E>::empty().push(e));
}

/// A bare map that holds every key of a record's shape reads as that one record.
pub proof fn lemma_bare_record<E: Entity>(entries: Vec<(Node, Node)>, keys: Seq<Seq<char>>, e: E)
    requires
        has_keys(entries@, keys),
        E::decoded(Node::Dict(entries)) == Some(e),
    ensures
        listed::<E>(Node::Dict(entries), keys) == Some(seq![e]),
{
}

/// The body after the decompression stage: unchanged where `gzip` is off,
/// its gzip payload where it is on.
pub open spec fn plain_body(data: Seq<u8>, gzip: bool) -> Option<Seq<u8>> {
    if gzip {
        gunzip(data)
    } else {
        Some(data)
    }
}

/// The document a supported format reads from `bytes`.
pub open spec fn format_tree(format: OutputFormat, bytes: Seq<u8>) -> Option<Node> {
    if format is Json {
        json_doc(bytes)
    } else {
        yaml_doc(bytes)
    }
}

/// The message of the error for an unsupported format.
pub open spec fn unsupported_message(format: OutputFormat) -> Seq<char> {
    match format {
        OutputFormat::Php => "PHP format is not supported"@,
        OutputFormat::Atom => "Atom format is not supported"@,
        _ => "JSONP format is not supported"@,
    }
}

/// What processing a body ends in: an unsupported format fails first, then a
/// bad gzip stream, then a body that does not parse; else the response that
/// the document holds.
pub open spec fn processed<T: ApiResponse>(
    r: Result<T, ApiError>,
    data: Seq<u8>,
    format: OutputFormat,
    gzip: bool,
) -> bool {
    if format.is_unsupported() {
        r is Err && r->Err_0 is InvalidFormat && r->Err_0->InvalidFormat_0@ == unsupported_message(format)
    } else {
        match plain_body(data, gzip) {
            None => r is Err && r->Err_0 is GzipDecompression,
            Some(body) => match format_tree(format, body) {
                None => r is Err && r->Err_0 is Deserialization,
                Some(t) => agrees_view(r, T::decoded(t)),
            },
        }
    }
}

/// `b` is an ASCII whitespace byte (space, tab, line feed, form feed, carriage return).
pub open spec fn is_space(b: u8) -> bool {
    b == 32 || b == 9 || b == 10 || b == 12 || b == 13
}

/// The first byte of `data` that is not whitespace.
pub open spec fn first_content(data: Seq<u8>) -> Option<u8>
    decreases data.len(),
{
    if data.len() == 0 {
        None
    } else if !is_space(data[0]) {
        Some(data[0])
    } else {
        first_content(data.drop_first())
    }
}

/// The three stages after the transport: decompression, parsing, decoding.
pub struct ResponseProcessor;

impl ResponseProcessor {
    pub fn decompress_gzip(data: &[u8]) -> (r: Result<Vec<u8>, ApiError>)
        ensures
            match gunzip(data@) {
                Some(p) => r is Ok && r->Ok_0@ == p,
                None => r is Err && r->Err_0 is GzipDecompression,
            },
    {
        match gunzip_bytes(data) {
            Ok(v) => Ok(v),
            Err(e) => Err(ApiError::GzipDecompression(e)),
        }
    }

    /// Decompresses `data` where `gzip` is on and passes it through unchanged
    /// where it is off.
    pub fn decompress_if(data: Vec<u8>, gzip: bool) -> (r: Result<Vec<u8>, ApiError>)
        ensures
            !gzip ==> r is Ok && r->Ok_0@ == data@,
            match plain_body(data@, gzip) {
                Some(p) => r is Ok && r->Ok_0@ == p,
                None => r is Err && r->Err_0 is GzipDecompression,
            },
    {
        if gzip {
            Self::decompress_gzip(data.as_slice())
        } else {
            Ok(data)
        }
    }

    /// Decodes a response body of the declared format. An unsupported format
    /// fails before the body is looked at.
    pub fn process<T: ApiResponse>(data: Vec<u8>, format: &OutputFormat, gzip: bool) -> (r: Result<T, ApiError>)
        ensures
            processed(r, data@, *format, gzip),
    {
        match format {
            OutputFormat::Php => {
                return Err(ApiError::InvalidFormat("PHP format is not supported".to_string()));
            },
            OutputFormat::Atom => {
                return Err(ApiError::InvalidFormat("Atom format is not supported".to_string()));
            },
            OutputFormat::Jsonp(_) => {
                return Err(ApiError::InvalidFormat("JSONP format is not supported".to_string()));
            },
            _ => {},
        }
        let body = Self::decompress_if(data, gzip)?;
        match format {
            OutputFormat::Json => T::from_json(body.as_slice()),
            _ => T::from_yaml(body.as_slice()),
        }
    }

    /// Guesses the format of a body from its first byte that is not
    /// whitespace: `{` or `[` is JSON, anything else (or nothing) YAML.
    pub fn detect_format_from_content(data: &[u8]) -> (r: OutputFormat)
        ensures
            r == (match first_content(data@) {
                Some(b) => if b == 123 || b == 91 {
                    OutputFormat::Json
                } else {
                    OutputFormat::Yaml
                },
                None => OutputFormat::Yaml,
            }),
    {
        let mut i: usize = 0;
        assert(data@.subrange(0, data@.len() as int) =~= data@);
        while i < data.len()
            invariant
                i <= data@.len(),
                first_content(data@) == first_content(data@.subrange(i as int, data@.len() as int)),
            decreases data@.len() - i,
        {
            assert(data@.subrange(i as int, data@.len() as int).drop_first()
                =~= data@.subrange(i + 1, data@.len() as int));
            let b = data[i];
            if !(b == 32 || b == 9 || b == 10 || b == 12 || b == 13) {
                if b == 123 || b == 91 {
                    return OutputFormat::Json;
                }
                return OutputFormat::Yaml;
            }
            i = i + 1;
        }
        OutputFormat::Yaml
    }
}

} // verus!
