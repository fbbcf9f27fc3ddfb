use vstd::prelude::*;
use crate::api::common::params::{
    level_pair, num_pair, opt_view, pairs_view, push_level, push_pair, push_text, push_u32, push_u8, text_pair, widen_u32, widen_u8,
};
use crate::api::narou::models::NarouOrder;

verus! {

/// The conditions of a user search.
#[derive(Debug, Clone, Default)]
pub struct UserSearchParams {
    pub gzip: Option<u8>,
    pub of: Option<String>,
    pub limit: Option<u32>,
    pub start: Option<u32>,
    pub order: Option<String>,
    pub libtype: Option<u8>,
    pub callback: Option<String>,
    pub word: Option<String>,
    pub notword: Option<String>,
    pub userid: Option<u32>,
    pub name: Option<String>,
    pub name1st: Option<String>,
    pub minnovel: Option<u32>,
    pub maxnovel: Option<u32>,
    pub minreview: Option<u32>,
    pub maxreview: Option<u32>,
}

impl UserSearchParams {
    /// The query of a search: JSON output, then each set condition; a gzip
    /// level is sent only where it is in `1..=5`.
    pub open spec fn query_spec(&self) -> Seq<(Seq<char>, Seq<char>)> {
        seq![("out"@, "json"@)]
            + text_pair("word"@, opt_view(self.word))
            + text_pair("notword"@, opt_view(self.notword))
            + num_pair("userid"@, widen_u32(self.userid))
            + text_pair("name"@, opt_view(self.name))
            + text_pair("name1st"@, opt_view(self.name1st))
            + num_pair("minnovel"@, widen_u32(self.minnovel))
            + num_pair("maxnovel"@, widen_u32(self.maxnovel))
            + num_pair("minreview"@, widen_u32(self.minreview))
            + num_pair("maxreview"@, widen_u32(self.maxreview))
            + num_pair("lim"@, widen_u32(self.limit))
            + num_pair("st"@, widen_u32(self.start))
            + text_pair("order"@, opt_view(self.order))
            + text_pair("of"@, opt_view(self.of))
            + num_pair("libtype"@, widen_u8(self.libtype))
            + text_pair("callback"@, opt_view(self.callback))
            + level_pair(self.gzip)
    }

    pub fn to_query(&self) -> (r: Vec<(String, String)>)
        ensures
            pairs_view(r@) == self.query_spec(),
    {
        let mut params: Vec<(String, String)> = Vec::new();
        assert(pairs_view(params@) =~= Seq::empty());
        push_pair(&mut params, "out", "json".to_string());
        assert(Seq::<(Seq<char>, Seq<char>)>::empty() + seq![("out"@, "json"@)] =~= seq![("out"@, "json"@)]);
        push_text(&mut params, "word", &self.word);
        push_text(&mut params, "notword", &self.notword);
        push_u32(&mut params, "userid", self.userid);
        push_text(&mut params, "name", &self.name);
        push_text(&mut params, "name1st", &self.name1st);
        push_u32(&mut params, "minnovel", self.minnovel);
        push_u32(&mut params, "maxnovel", self.maxnovel);
        push_u32(&mut params, "minreview", self.minreview);
        push_u32(&mut params, "maxreview", self.maxreview);
        push_u32(&mut params, "lim", self.limit);
        push_u32(&mut params, "st", self.start);
        push_text(&mut params, "order", &self.order);
        push_text(&mut params, "of", &self.of);
        push_u8(&mut params, "libtype", self.libtype);
        push_text(&mut params, "callback", &self.callback);
        push_level(&mut params, self.gzip);
        params
    }
}

} // verus!
