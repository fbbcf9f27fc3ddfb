use vstd::prelude::*;
use crate::api::common::error::ApiError;
use crate::api::common::params::{
    num_pair, opt_view, pairs_view, push_pair, push_text, push_u8, text_pair, widen_u8,
};
use crate::api::common::request::{format_from_fields, gzip_requested, ApiRequest};
use crate::api::common::response::{decode_listed, key_names, listed, ApiResponse, Entity, OutputFormat};

use crate::api::common::tree::{
    int_node, key_node, lookup, req_text, req_u16, req_u32, required, text_field, u16_field, u32_field, Node,
};

verus! {

/// A query of the ranking API for one ranking type and date (`rtype`).
#[derive(Debug, Clone)]
pub struct RankingRequest {
    pub rtype: String,
    pub gzip: Option<u8>,
    pub out: Option<String>,
    pub libtype: Option<u8>,
    pub callback: Option<String>,
}

impl RankingRequest {
    /// A request for JSON output with every optional field unset.
    pub fn new(rtype: String) -> (r: Self)
        ensures
            r.rtype == rtype,
            r.gzip is None,
            r.out is Some && r.out->0@ == "json"@,
            r.libtype is None,
            r.callback is None,
    {
        Self {
            rtype,
            gzip: None,
            out: Some("json".to_string()),
            libtype: None,
            callback: None,
        }
    }

    /// The query parameters in declaration order.
    pub open spec fn query_spec(&self) -> Seq<(Seq<char>, Seq<char>)> {
        Seq::empty()
            + seq![("rtype"@, self.rtype@)]
            + num_pair("gzip"@, widen_u8(self.gzip))
            + text_pair("out"@, opt_view(self.out))
            + num_pair("libtype"@, widen_u8(self.libtype))
            + text_pair("callback"@, opt_view(self.callback))
    }

    fn params(&self) -> (r: Vec<(String, String)>)
        ensures
            pairs_view(r@) == self.query_spec(),
    {
        let mut params: Vec<(String, String)> = Vec::new();
        assert(pairs_view(params@) =~= Seq::empty());
        push_pair(&mut params, "rtype", self.rtype.clone());
        push_u8(&mut params, "gzip", self.gzip);
        push_text(&mut params, "out", &self.out);
        push_u8(&mut params, "libtype", self.libtype);
        push_text(&mut params, "callback", &self.callback);
        params
    }
}

impl RankingRequest {
    /// No optional field is set.
    pub open spec fn all_unset(&self) -> bool {
        self.gzip is None
            && self.out is None
            && self.libtype is None
            && self.callback is None
    }
}

/// With no optional field set, the query holds only the required parameter.
pub proof fn lemma_ranking_request_unset_query(r: RankingRequest)
    requires
        r.all_unset(),
    ensures
        r.query() == seq![("rtype"@, r.rtype@)],
{
    assert(r.query() =~= seq![("rtype"@, r.rtype@)]);
}

impl ApiRequest for RankingRequest {
    open spec fn query(&self) -> Seq<(Seq<char>, Seq<char>)> {
        self.query_spec()
    }

    open spec fn out_field(&self) -> Option<String> {
        self.out
    }

    open spec fn gzip_field(&self) -> Option<u8> {
        self.gzip
    }

    open spec fn callback_field(&self) -> Option<String> {
        self.callback
    }

    fn to_query_params(&self) -> (r: Vec<(String, String)>) {
        self.params()
    }

    fn output_format(&self) -> (r: OutputFormat) {
        format_from_fields(&self.out, &self.callback)
    }

    fn is_gzip(&self) -> (r: bool) {
        gzip_requested(self.gzip)
    }

    fn get_callback(&self) -> (r: Option<String>) {
        match &self.callback {
            Some(c) => Some(c.clone()),
            None => None,
        }
    }
}

/// One row of a ranking.
#[derive(Debug, Clone, PartialEq)]
pub struct RankingEntry {
    pub ncode: String,
    pub pt: u32,
    pub rank: u16,
}

impl RankingEntry {
    /// The map node of this record: one entry per field, null for an unset one.
    pub fn to_node(&self) -> (r: Node)
        ensures
            <RankingEntry as Entity>::decoded(r) == Some(*self),
            r is Dict && lookup(r->Dict_0@, "allcount"@) is None,
    {
        let entries: Vec<(Node, Node)> = vec![
            (key_node("ncode"), Node::Text(self.ncode.clone())),
            (key_node("pt"), int_node(Some(self.pt as u64))),
            (key_node("rank"), int_node(Some(self.rank as u64))),
        ];
        proof {
            reveal_strlit("ncode");
            reveal_strlit("pt");
            reveal_strlit("rank");
            assert(lookup(entries@, "ncode"@) == Some(entries@[0].1)) by {
                reveal_with_fuel(lookup, 2);
            }
            assert(lookup(entries@, "pt"@) == Some(entries@[1].1)) by {
                reveal_with_fuel(lookup, 3);
                assert("pt"@.len() != "ncode"@.len());
            }
            assert(lookup(entries@, "rank"@) == Some(entries@[2].1)) by {
                reveal_with_fuel(lookup, 4);
                assert("rank"@.len() != "ncode"@.len());
                assert("rank"@.len() != "pt"@.len());
            }
            assert(lookup(entries@, "allcount"@) is None) by {
                reveal_strlit("allcount");
                reveal_with_fuel(lookup, 4);
                assert("allcount"@.len() != "ncode"@.len());
                assert("allcount"@.len() != "pt"@.len());
                assert("allcount"@.len() != "rank"@.len());
            }
        }
        Node::Dict(entries)
    }
}

impl Entity for RankingEntry {
    open spec fn shape() -> Seq<Seq<char>> {
        seq!["ncode"@, "pt"@, "rank"@]
    }

    fn shape_keys() -> (r: Vec<&'static str>) {
        let keys: Vec<&'static str> = vec!["ncode", "pt", "rank"];
        assert(key_names(keys@) =~= seq!["ncode"@, "pt"@, "rank"@]);
        keys
    }

    /// A map whose entries fit the field types; absent and null optional
    /// fields read as `None`, unknown entries are ignored.
    open spec fn decoded(n: Node) -> Option<Self> {
        match n {
            Node::Dict(e) => {
                let ncode = required(text_field(e@, "ncode"@));
                let pt = required(u32_field(e@, "pt"@));
                let rank = required(u16_field(e@, "rank"@));
                if ncode is Some && pt is Some && rank is Some {
                    Some(RankingEntry {
                        ncode: ncode->0,
                        pt: pt->0,
                        rank: rank->0,
                    })
                } else {
                    None
                }
            },
            _ => None,
        }
    }

    fn from_node(n: &Node) -> (r: Result<Self, ApiError>) {
        match n {
            Node::Dict(e) => {
                let ncode = req_text(e, "ncode")?;
                let pt = req_u32(e, "pt")?;
                let rank = req_u16(e, "rank")?;
                Ok(RankingEntry {
                    ncode,
                    pt,
                    rank,
                })
            },
            _ => Err(ApiError::Deserialization("a record is not a map".to_string())),
        }
    }
}

/// The ranking API answer.
#[derive(Debug, Clone)]
pub struct RankingResponse {
    pub rankings: Vec<RankingEntry>,
}

impl View for RankingResponse {
    type V = Seq<RankingEntry>;

    open spec fn view(&self) -> Self::V {
        self.rankings@
    }
}

impl ApiResponse for RankingResponse {
    open spec fn decoded(tree: Node) -> Option<Self::V> {
        listed::<RankingEntry>(tree, seq!["ncode"@, "pt"@, "rank"@])
    }

    fn from_tree(tree: &Node) -> (r: Result<Self, ApiError>) {
        let keys: Vec<&str> = vec!["ncode", "pt", "rank"];
        assert(key_names(keys@) =~= seq!["ncode"@, "pt"@, "rank"@]);
        let rankings = decode_listed::<RankingEntry>(tree, &keys)?;
        Ok(RankingResponse { rankings })
    }
}

/// The ranking endpoint.
pub struct RankingApiClient;

impl RankingApiClient {
    pub fn base_url(&self) -> (r: &'static str)
        ensures
            r@ == "https://api.syosetu.com/rank/rankget/"@,
    {
        "https://api.syosetu.com/rank/rankget/"
    }
}

} // verus!
