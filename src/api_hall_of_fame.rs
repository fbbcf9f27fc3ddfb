use vstd::prelude::*;
use crate::api::common::body::{body_doc, fault_error, read_body};
use crate::api::common::client::{is_success, status_failure};
use crate::api::common::error::ApiError;
use crate::api::common::request::{gzip_on, gzip_requested};
use crate::api::common::params::{
    num_pair, opt_view, pairs_view, push_pair, push_text, push_u8, text_pair, widen_u8,
};

use crate::api::common::response::{decode_listed, key_names, listed};
pub use crate::api::endpoints::hall_of_fame::HallOfFameEntry;

verus! {

/// A query of the hall-of-fame API, first generation.
#[derive(Debug, Clone)]
pub struct NarouHallOfFameApiRequest {
    pub gzip: Option<u8>,
    pub out: Option<String>,
    pub ncode: String,
    pub libtype: Option<u8>,
    pub callback: Option<String>,
}

impl NarouHallOfFameApiRequest {
    /// The query parameters, in the order the search sends them.
    pub open spec fn query_spec(&self) -> Seq<(Seq<char>, Seq<char>)> {
        Seq::empty()
            + num_pair("gzip"@, widen_u8(self.gzip))
            + text_pair("out"@, opt_view(self.out))
            + seq![("ncode"@, self.ncode@)]
            + num_pair("libtype"@, widen_u8(self.libtype))
            + text_pair("callback"@, opt_view(self.callback))
    }

    pub fn query_params(&self) -> (r: Vec<(String, String)>)
        ensures
            pairs_view(r@) == self.query_spec(),
    {
        let mut params: Vec<(String, String)> = Vec::new();
        assert(pairs_view(params@) =~= Seq::empty());
        push_u8(&mut params, "gzip", self.gzip);
        push_text(&mut params, "out", &self.out);
        push_pair(&mut params, "ncode", self.ncode.clone());
        push_u8(&mut params, "libtype", self.libtype);
        push_text(&mut params, "callback", &self.callback);
        params
    }
}

impl NarouHallOfFameApiRequest {
    /// A request for JSON output about `ncode`.
    pub fn new(ncode: String) -> (r: Self)
        ensures
            r.gzip is None,
            r.out is Some && r.out->0@ == "json"@,
            r.ncode == ncode,
            r.libtype is None,
            r.callback is None,
    {
        Self {
            gzip: None,
            out: Some("json".to_string()),
            ncode,
            libtype: None,
            callback: None,
        }
    }

}

/// A hall-of-fame answer.
#[derive(Debug, Clone)]
pub struct NarouHallOfFameApiResponse {
    pub rankings: Vec<HallOfFameEntry>,
}

impl View for NarouHallOfFameApiResponse {
    type V = Seq<HallOfFameEntry>;

    open spec fn view(&self) -> Self::V {
        self.rankings@
    }
}

/// The first-generation hall-of-fame client.
pub struct NarouHallOfFameApiClient {
    pub base_url: String,
}

impl NarouHallOfFameApiClient {
    pub fn new() -> (r: Self)
        ensures
            r.base_url@ == "https://api.syosetu.com/rank/rankin"@,
    {
        Self { base_url: "https://api.syosetu.com/rank/rankin".to_string() }
    }

    /// Decodes a response to `params` with HTTP status `status`: the body is
    /// read as `read_body` does, then its document as the envelope says.
    pub fn decode_rankings(&self, status: u16, body: Vec<u8>, params: &NarouHallOfFameApiRequest) -> (r: Result<NarouHallOfFameApiResponse, ApiError>)
        ensures
            !is_success(status) ==> r is Err && status_failure(r->Err_0, status),
            match body_doc(status, body@, gzip_on(params.gzip), opt_view(params.out)) {
                Err(f) => r is Err && fault_error(r->Err_0, f, status),
                Ok(t) => match listed::<HallOfFameEntry>(t, seq!["rtype"@, "pt"@, "rank"@]) {
                    Some(v) => r is Ok && r->Ok_0@ == v,
                    None => r is Err && r->Err_0 is Deserialization,
                },
            },
    {
        let tree = read_body(status, body, gzip_requested(params.gzip), &params.out)?;
        let keys: Vec<&str> = vec!["rtype", "pt", "rank"];
        assert(key_names(keys@) =~= seq!["rtype"@, "pt"@, "rank"@]);
        let rankings = decode_listed::<HallOfFameEntry>(&tree, &keys)?;
        Ok(NarouHallOfFameApiResponse { rankings })
    }
}

} // verus!
