use vstd::prelude::*;
use crate::api::common::body::{
    Selectable, body_doc, decode_search_answer_with, fault_error, has_code, loose_text, loose_u64, narrow_u32, read_body, search_answer_with, text_of, u32_of, u64_of,
};
use crate::api::common::client::{is_success, status_failure};
use crate::api::common::error::ApiError;
use crate::api::common::request::{gzip_on, gzip_requested};
use crate::api::common::params::{
    num_pair, opt_view, pairs_view, push_text, push_u32, push_u8, text_pair, widen_u32, widen_u8,
};
use crate::api::common::selector::{split_dash, split_dashes};
use crate::api::common::tree::{Node};

pub use crate::api::endpoints::user::NarouUserInfo;

verus! {

/// A query of the user search API, first generation.
#[derive(Debug, Clone)]
pub struct NarouUserApiRequest {
    pub gzip: Option<u8>,
    pub out: Option<String>,
    pub of: Option<String>,
    pub lim: Option<u32>,
    pub st: Option<u32>,
    pub order: Option<String>,
    pub libtype: Option<u8>,
    pub word: Option<String>,
    pub notword: Option<String>,
    pub userid: Option<u32>,
    pub name1st: Option<String>,
    pub minnovel: Option<u32>,
    pub maxnovel: Option<u32>,
    pub minreview: Option<u32>,
    pub maxreview: Option<u32>,
    pub callback: Option<String>,
}

impl NarouUserApiRequest {
    /// The query parameters, in the order the search sends them.
    pub open spec fn query_spec(&self) -> Seq<(Seq<char>, Seq<char>)> {
        Seq::empty()
            + num_pair("gzip"@, widen_u8(self.gzip))
            + text_pair("out"@, opt_view(self.out))
            + text_pair("of"@, opt_view(self.of))
            + num_pair("lim"@, widen_u32(self.lim))
            + num_pair("st"@, widen_u32(self.st))
            + text_pair("order"@, opt_view(self.order))
            + num_pair("libtype"@, widen_u8(self.libtype))
            + text_pair("word"@, opt_view(self.word))
            + text_pair("notword"@, opt_view(self.notword))
            + num_pair("userid"@, widen_u32(self.userid))
            + text_pair("name1st"@, opt_view(self.name1st))
            + num_pair("minnovel"@, widen_u32(self.minnovel))
            + num_pair("maxnovel"@, widen_u32(self.maxnovel))
            + num_pair("minreview"@, widen_u32(self.minreview))
            + num_pair("maxreview"@, widen_u32(self.maxreview))
            + text_pair("callback"@, opt_view(self.callback))
    }

    pub fn query_params(&self) -> (r: Vec<(String, String)>)
        ensures
            pairs_view(r@) == self.query_spec(),
    {
        let mut params: Vec<(String, String)> = Vec::new();
        assert(pairs_view(params@) =~= Seq::empty());
        push_u8(&mut params, "gzip", self.gzip);
        push_text(&mut params, "out", &self.out);
        push_text(&mut params, "of", &self.of);
        push_u32(&mut params, "lim", self.lim);
        push_u32(&mut params, "st", self.st);
        push_text(&mut params, "order", &self.order);
        push_u8(&mut params, "libtype", self.libtype);
        push_text(&mut params, "word", &self.word);
        push_text(&mut params, "notword", &self.notword);
        push_u32(&mut params, "userid", self.userid);
        push_text(&mut params, "name1st", &self.name1st);
        push_u32(&mut params, "minnovel", self.minnovel);
        push_u32(&mut params, "maxnovel", self.maxnovel);
        push_u32(&mut params, "minreview", self.minreview);
        push_u32(&mut params, "maxreview", self.maxreview);
        push_text(&mut params, "callback", &self.callback);
        params
    }
}

impl Default for NarouUserApiRequest {
    /// JSON output, twenty results, nothing else set.
    fn default() -> (r: Self)
        ensures
            r.gzip is None,
            r.out is Some && r.out->0@ == "json"@,
            r.of is None,
            r.lim == Some(20u32),
            r.st is None,
            r.order is None,
            r.libtype is None,
            r.word is None,
            r.notword is None,
            r.userid is None,
            r.name1st is None,
            r.minnovel is None,
            r.maxnovel is None,
            r.minreview is None,
            r.maxreview is None,
            r.callback is None,
    {
        Self {
            gzip: None,
            out: Some("json".to_string()),
            of: None,
            lim: Some(20),
            st: None,
            order: None,
            libtype: None,
            word: None,
            notword: None,
            userid: None,
            name1st: None,
            minnovel: None,
            maxnovel: None,
            minreview: None,
            maxreview: None,
            callback: None,
        }
    }
}

impl Selectable for NarouUserInfo {
    open spec fn selected(n: Node, codes: Seq<Seq<char>>) -> Self {
        NarouUserInfo {
            userid: if codes.contains("u"@) {
                narrow_u32(loose_u64(n, "userid"@))
            } else {
                None
            },
            name: if codes.contains("n"@) {
                loose_text(n, "name"@)
            } else {
                None
            },
            yomikata: if codes.contains("y"@) {
                loose_text(n, "yomikata"@)
            } else {
                None
            },
            name1st: if codes.contains("n1"@) {
                loose_text(n, "name1st"@)
            } else {
                None
            },
            novel_cnt: if codes.contains("nc"@) {
                narrow_u32(loose_u64(n, "novel_cnt"@))
            } else {
                None
            },
            review_cnt: if codes.contains("rc"@) {
                narrow_u32(loose_u64(n, "review_cnt"@))
            } else {
                None
            },
            novel_length: if codes.contains("nl"@) {
                loose_u64(n, "novel_length"@)
            } else {
                None
            },
            sum_global_point: if codes.contains("sg"@) {
                loose_u64(n, "sum_global_point"@)
            } else {
                None
            },
        }
    }

    fn select(n: &Node, codes: &Vec<&str>) -> (r: Self) {
        NarouUserInfo {
            userid: if has_code(codes, "u") {
                u32_of(n, "userid")
            } else {
                None
            },
            name: if has_code(codes, "n") {
                text_of(n, "name")
            } else {
                None
            },
            yomikata: if has_code(codes, "y") {
                text_of(n, "yomikata")
            } else {
                None
            },
            name1st: if has_code(codes, "n1") {
                text_of(n, "name1st")
            } else {
                None
            },
            novel_cnt: if has_code(codes, "nc") {
                u32_of(n, "novel_cnt")
            } else {
                None
            },
            review_cnt: if has_code(codes, "rc") {
                u32_of(n, "review_cnt")
            } else {
                None
            },
            novel_length: if has_code(codes, "nl") {
                u64_of(n, "novel_length")
            } else {
                None
            },
            sum_global_point: if has_code(codes, "sg") {
                u64_of(n, "sum_global_point")
            } else {
                None
            },
        }
    }
}

/// The codes of a request's field selector.
pub open spec fn selector_codes(of: Option<String>) -> Option<Seq<Seq<char>>> {
    match of {
        Some(o) => Some(split_dash(o@)),
        None => None,
    }
}

/// A user search answer: the total count and the users.
#[derive(Debug, Clone)]
pub struct NarouUserApiResponse {
    pub allcount: u32,
    pub users: Vec<NarouUserInfo>,
}

impl View for NarouUserApiResponse {
    type V = (u32, Seq<NarouUserInfo>);

    open spec fn view(&self) -> Self::V {
        (self.allcount, self.users@)
    }
}

/// The first-generation user search client.
pub struct NarouUserApiClient {
    pub base_url: String,
}

impl NarouUserApiClient {
    pub fn new() -> (r: Self)
        ensures
            r.base_url@ == "https://api.syosetu.com/userapi/api/"@,
    {
        Self { base_url: "https://api.syosetu.com/userapi/api/".to_string() }
    }

    /// Decodes a response to `params` with HTTP status `status`: the body is
    /// read as `read_body` does, then its document as the envelope says.
    pub fn decode_search(&self, status: u16, body: Vec<u8>, params: &NarouUserApiRequest) -> (r: Result<NarouUserApiResponse, ApiError>)
        ensures
            !is_success(status) ==> r is Err && status_failure(r->Err_0, status),
            match body_doc(status, body@, gzip_on(params.gzip), opt_view(params.out)) {
                Err(f) => r is Err && fault_error(r->Err_0, f, status),
                Ok(t) => match search_answer_with::<NarouUserInfo>(t, selector_codes(params.of)) {
                    Some(v) => r is Ok && r->Ok_0@ == v,
                    None => r is Err && r->Err_0 is Deserialization,
                },
            },
    {
        let tree = read_body(status, body, gzip_requested(params.gzip), &params.out)?;
        let codes: Option<Vec<&str>> = match &params.of {
            Some(o) => Some(split_dashes(o.as_str())),
            None => None,
        };
        let (allcount, users) = decode_search_answer_with::<NarouUserInfo>(&tree, &codes)?;
        Ok(NarouUserApiResponse { allcount, users })
    }
}

} // verus!
