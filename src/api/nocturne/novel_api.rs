use vstd::prelude::*;
use crate::api::common::params::{
    flag_pair, level_pair, num_pair, opt_view, pairs_view, push_flag, push_level, push_pair, push_text, push_u32, text_pair, widen_u32,
};
use crate::api::nocturne::models::NocturneOrder;

verus! {

/// The conditions of an adult-site novel search.
#[derive(Debug, Clone, Default)]
pub struct NocturneSearchParams {
    pub word: Option<String>,
    pub notword: Option<String>,
    pub ncode: Option<String>,
    pub xid: Option<String>,
    pub title: Option<bool>,
    pub ex: Option<bool>,
    pub keyword: Option<bool>,
    pub wname: Option<bool>,
    pub nocgenre: Option<u32>,
    pub notnocgenre: Option<u32>,
    pub isbl: Option<bool>,
    pub isgl: Option<bool>,
    pub iszankoku: Option<bool>,
    pub istensei: Option<bool>,
    pub istenni: Option<bool>,
    pub istt: Option<bool>,
    pub notbl: Option<bool>,
    pub notgl: Option<bool>,
    pub notzankoku: Option<bool>,
    pub nottensei: Option<bool>,
    pub nottenni: Option<bool>,
    pub length: Option<String>,
    pub length_min: Option<u32>,
    pub length_max: Option<u32>,
    pub time: Option<String>,
    pub mintime: Option<u32>,
    pub maxtime: Option<u32>,
    pub kaiwaritu: Option<String>,
    pub sasie: Option<String>,
    pub stop: Option<u32>,
    pub novel_type: Option<String>,
    pub buntai: Option<String>,
    pub lastup: Option<String>,
    pub lastupdate: Option<String>,
    pub ispickup: Option<bool>,
    pub limit: Option<u32>,
    pub start: Option<u32>,
    pub order: Option<NocturneOrder>,
    pub of: Option<String>,
    pub gzip: Option<u8>,
}

impl NocturneSearchParams {
    /// The query of a search: JSON output, then each set condition; a gzip
    /// level is sent only where it is in `1..=5`.
    pub open spec fn query_spec(&self) -> Seq<(Seq<char>, Seq<char>)> {
        seq![("out"@, "json"@)]
            + text_pair("word"@, opt_view(self.word))
            + text_pair("notword"@, opt_view(self.notword))
            + text_pair("ncode"@, opt_view(self.ncode))
            + text_pair("xid"@, opt_view(self.xid))
            + flag_pair("title"@, self.title)
            + flag_pair("ex"@, self.ex)
            + flag_pair("keyword"@, self.keyword)
            + flag_pair("wname"@, self.wname)
            + num_pair("nocgenre"@, widen_u32(self.nocgenre))
            + num_pair("notnocgenre"@, widen_u32(self.notnocgenre))
            + flag_pair("isbl"@, self.isbl)
            + flag_pair("isgl"@, self.isgl)
            + flag_pair("iszankoku"@, self.iszankoku)
            + flag_pair("istensei"@, self.istensei)
            + flag_pair("istenni"@, self.istenni)
            + flag_pair("istt"@, self.istt)
            + flag_pair("notbl"@, self.notbl)
            + flag_pair("notgl"@, self.notgl)
            + flag_pair("notzankoku"@, self.notzankoku)
            + flag_pair("nottensei"@, self.nottensei)
            + flag_pair("nottenni"@, self.nottenni)
            + text_pair("length"@, opt_view(self.length))
            + num_pair("minlen"@, widen_u32(self.length_min))
            + num_pair("maxlen"@, widen_u32(self.length_max))
            + text_pair("time"@, opt_view(self.time))
            + num_pair("mintime"@, widen_u32(self.mintime))
            + num_pair("maxtime"@, widen_u32(self.maxtime))
            + text_pair("kaiwaritu"@, opt_view(self.kaiwaritu))
            + text_pair("sasie"@, opt_view(self.sasie))
            + num_pair("stop"@, widen_u32(self.stop))
            + text_pair("type"@, opt_view(self.novel_type))
            + text_pair("buntai"@, opt_view(self.buntai))
            + text_pair("lastup"@, opt_view(self.lastup))
            + text_pair("lastupdate"@, opt_view(self.lastupdate))
            + flag_pair("ispickup"@, self.ispickup)
            + num_pair("lim"@, widen_u32(self.limit))
            + num_pair("st"@, widen_u32(self.start))
            + match self.order {
                Some(o) => seq![("order"@, o.name())],
                None => Seq::empty(),
            }
            + text_pair("of"@, opt_view(self.of))
            + level_pair(self.gzip)
    }

    pub fn to_query(&self) -> (r: Vec<(String, String)>)
        ensures
            pairs_view(r@) == self.query_spec(),
    {
        let mut params: Vec<(String, String)> = Vec::new();
        assert(pairs_view(params@) =~= Seq::empty());
        push_pair(&mut params, "out", "json".to_string());
        assert(Seq::<(Seq<char>, Seq<char>)>::empty() + seq![("out"@, "json"@)] =~= seq![("out"@, "json"@)]);
        push_text(&mut params, "word", &self.word);
        push_text(&mut params, "notword", &self.notword);
        push_text(&mut params, "ncode", &self.ncode);
        push_text(&mut params, "xid", &self.xid);
        push_flag(&mut params, "title", self.title);
        push_flag(&mut params, "ex", self.ex);
        push_flag(&mut params, "keyword", self.keyword);
        push_flag(&mut params, "wname", self.wname);
        push_u32(&mut params, "nocgenre", self.nocgenre);
        push_u32(&mut params, "notnocgenre", self.notnocgenre);
        push_flag(&mut params, "isbl", self.isbl);
        push_flag(&mut params, "isgl", self.isgl);
        push_flag(&mut params, "iszankoku", self.iszankoku);
        push_flag(&mut params, "istensei", self.istensei);
        push_flag(&mut params, "istenni", self.istenni);
        push_flag(&mut params, "istt", self.istt);
        push_flag(&mut params, "notbl", self.notbl);
        push_flag(&mut params, "notgl", self.notgl);
        push_flag(&mut params, "notzankoku", self.notzankoku);
        push_flag(&mut params, "nottensei", self.nottensei);
        push_flag(&mut params, "nottenni", self.nottenni);
        push_text(&mut params, "length", &self.length);
        push_u32(&mut params, "minlen", self.length_min);
        push_u32(&mut params, "maxlen", self.length_max);
        push_text(&mut params, "time", &self.time);
        push_u32(&mut params, "mintime", self.mintime);
        push_u32(&mut params, "maxtime", self.maxtime);
        push_text(&mut params, "kaiwaritu", &self.kaiwaritu);
        push_text(&mut params, "sasie", &self.sasie);
        push_u32(&mut params, "stop", self.stop);
        push_text(&mut params, "type", &self.novel_type);
        push_text(&mut params, "buntai", &self.buntai);
        push_text(&mut params, "lastup", &self.lastup);
        push_text(&mut params, "lastupdate", &self.lastupdate);
        push_flag(&mut params, "ispickup", self.ispickup);
        push_u32(&mut params, "lim", self.limit);
        push_u32(&mut params, "st", self.start);
        match self.order {
            Some(o) => push_pair(&mut params, "order", o.as_str().to_string()),
            None => {
                assert(pairs_view(params@) + Seq::<(Seq<char>, Seq<char>)>::empty() =~= pairs_view(params@));
            },
        }
        push_text(&mut params, "of", &self.of);
        push_level(&mut params, self.gzip);
        params
    }
}

impl NocturneSearchParams {
    /// No genre is asked for, or the one asked for lies in `lo..=hi` (the
    /// genre range of one site).
    pub fn genre_within(&self, lo: u32, hi: u32) -> (r: bool)
        ensures
            r == match self.nocgenre {
                Some(g) => lo <= g <= hi,
                None => true,
            },
    {
        match self.nocgenre {
            Some(g) => lo <= g && g <= hi,
            None => true,
        }
    }
}

} // verus!
