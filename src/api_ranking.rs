use vstd::prelude::*;
use crate::api::common::body::{body_doc, fault_error, read_body};
use crate::api::common::client::{is_success, status_failure};
use crate::api::common::error::ApiError;
use crate::api::common::request::{gzip_on, gzip_requested};
use crate::api::common::params::{
    num_pair, opt_view, pairs_view, push_pair, push_text, push_u8, text_pair, widen_u8,
};

use crate::api::common::response::{decode_listed, key_names, listed};
pub use crate::api::endpoints::ranking::RankingEntry;

verus! {

/// A query of the ranking API, first generation.
#[derive(Debug, Clone)]
pub struct NarouRankingApiRequest {
    pub gzip: Option<u8>,
    pub out: Option<String>,
    pub rtype: String,
    pub libtype: Option<u8>,
    pub callback: Option<String>,
}

impl NarouRankingApiRequest {
    /// The query parameters, in the order the search sends them.
    pub open spec fn query_spec(&self) -> Seq<(Seq<char>, Seq<char>)> {
        Seq::empty()
            + num_pair("gzip"@, widen_u8(self.gzip))
            + text_pair("out"@, opt_view(self.out))
            + seq![("rtype"@, self.rtype@)]
            + num_pair("libtype"@, widen_u8(self.libtype))
            + text_pair("callback"@, opt_view(self.callback))
    }

    pub fn query_params(&self) -> (r: Vec<(String, String)>)
        ensures
            pairs_view(r@) == self.query_spec(),
    {
        let mut params: Vec<(String, String)> = Vec::new();
        assert(pairs_view(params@) =~= Seq::empty());
        push_u8(&mut params, "gzip", self.gzip);
        push_text(&mut params, "out", &self.out);
        push_pair(&mut params, "rtype", self.rtype.clone());
        push_u8(&mut params, "libtype", self.libtype);
        push_text(&mut params, "callback", &self.callback);
        params
    }
}

impl NarouRankingApiRequest {
    /// A request for JSON output about `rtype`.
    pub fn new(rtype: String) -> (r: Self)
        ensures
            r.gzip is None,
            r.out is Some && r.out->0@ == "json"@,
            r.rtype == rtype,
            r.libtype is None,
            r.callback is None,
    {
        Self {
            gzip: None,
            out: Some("json".to_string()),
            rtype,
            libtype: None,
            callback: None,
        }
    }

    /// The daily ranking of `date` (written `YYYYMMDD`).
    pub fn daily(date: &str) -> (r: Self)
        ensures
            r.rtype@ == date@ + "-d"@,
            r.out is Some && r.out->0@ == "json"@,
            r.gzip is None && r.libtype is None && r.callback is None,
    {
        let mut rtype = date.to_string();
        rtype.append("-d");
        Self::new(rtype)
    }

    /// The weekly ranking of `date` (written `YYYYMMDD`).
    pub fn weekly(date: &str) -> (r: Self)
        ensures
            r.rtype@ == date@ + "-w"@,
            r.out is Some && r.out->0@ == "json"@,
            r.gzip is None && r.libtype is None && r.callback is None,
    {
        let mut rtype = date.to_string();
        rtype.append("-w");
        Self::new(rtype)
    }

    /// The monthly ranking of `date` (written `YYYYMMDD`).
    pub fn monthly(date: &str) -> (r: Self)
        ensures
            r.rtype@ == date@ + "-m"@,
            r.out is Some && r.out->0@ == "json"@,
            r.gzip is None && r.libtype is None && r.callback is None,
    {
        let mut rtype = date.to_string();
        rtype.append("-m");
        Self::new(rtype)
    }

    /// The quarterly ranking of `date` (written `YYYYMMDD`).
    pub fn quarterly(date: &str) -> (r: Self)
        ensures
            r.rtype@ == date@ + "-q"@,
            r.out is Some && r.out->0@ == "json"@,
            r.gzip is None && r.libtype is None && r.callback is None,
    {
        let mut rtype = date.to_string();
        rtype.append("-q");
        Self::new(rtype)
    }

}

/// A ranking answer.
#[derive(Debug, Clone)]
pub struct NarouRankingApiResponse {
    pub rankings: Vec<RankingEntry>,
}

impl View for NarouRankingApiResponse {
    type V = Seq<RankingEntry>;

    open spec fn view(&self) -> Self::V {
        self.rankings@
    }
}

/// The first-generation ranking client.
pub struct NarouRankingApiClient {
    pub base_url: String,
}

impl NarouRankingApiClient {
    pub fn new() -> (r: Self)
        ensures
            r.base_url@ == "https://api.syosetu.com/rank/rankget/"@,
    {
        Self { base_url: "https://api.syosetu.com/rank/rankget/".to_string() }
    }

    /// Decodes a response to `params` with HTTP status `status`: the body is
    /// read as `read_body` does, then its document as the envelope says.
    pub fn decode_rankings(&self, status: u16, body: Vec<u8>, params: &NarouRankingApiRequest) -> (r: Result<NarouRankingApiResponse, ApiError>)
        ensures
            !is_success(status) ==> r is Err && status_failure(r->Err_0, status),
            match body_doc(status, body@, gzip_on(params.gzip), opt_view(params.out)) {
                Err(f) => r is Err && fault_error(r->Err_0, f, status),
                Ok(t) => match listed::<RankingEntry>(t, seq!["ncode"@, "pt"@, "rank"@]) {
                    Some(v) => r is Ok && r->Ok_0@ == v,
                    None => r is Err && r->Err_0 is Deserialization,
                },
            },
    {
        let tree = read_body(status, body, gzip_requested(params.gzip), &params.out)?;
        let keys: Vec<&str> = vec!["ncode", "pt", "rank"];
        assert(key_names(keys@) =~= seq!["ncode"@, "pt"@, "rank"@]);
        let rankings = decode_listed::<RankingEntry>(&tree, &keys)?;
        Ok(NarouRankingApiResponse { rankings })
    }
}

} // verus!
