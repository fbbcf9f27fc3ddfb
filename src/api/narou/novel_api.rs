use vstd::prelude::*;
use crate::api::common::params::{
    flag_pair, level_pair, num_pair, opt_view, pairs_view, push_flag, push_level, push_pair, push_text, push_u32, push_u8, text_pair, widen_u32, widen_u8,
};
use crate::api::narou::models::NarouOrder;

verus! {

/// The conditions of a novel search.
#[derive(Debug, Clone, Default)]
pub struct NovelSearchParams {
    pub gzip: Option<u8>,
    pub of: Option<String>,
    pub limit: Option<u32>,
    pub start: Option<u32>,
    pub order: Option<NarouOrder>,
    pub libtype: Option<u8>,
    pub updatetype: Option<u8>,
    pub word: Option<String>,
    pub notword: Option<String>,
    pub title: Option<bool>,
    pub ex: Option<bool>,
    pub keyword: Option<bool>,
    pub wname: Option<bool>,
    pub biggenre: Option<u32>,
    pub notbiggenre: Option<u32>,
    pub genre: Option<u32>,
    pub notgenre: Option<String>,
    pub userid: Option<u32>,
    pub isr15: Option<bool>,
    pub isbl: Option<bool>,
    pub isgl: Option<bool>,
    pub iszankoku: Option<bool>,
    pub istensei: Option<bool>,
    pub istenni: Option<bool>,
    pub istt: Option<bool>,
    pub notr15: Option<bool>,
    pub notbl: Option<bool>,
    pub notgl: Option<bool>,
    pub notzankoku: Option<bool>,
    pub nottensei: Option<bool>,
    pub nottenni: Option<bool>,
    pub minlen: Option<u32>,
    pub maxlen: Option<u32>,
    pub length: Option<String>,
    pub kaiwaritu: Option<String>,
    pub sasie: Option<String>,
    pub mintime: Option<u32>,
    pub maxtime: Option<u32>,
    pub time: Option<String>,
    pub ncode: Option<String>,
    pub lastup: Option<String>,
    pub opt: Option<String>,
    pub writer: Option<String>,
    pub stop: Option<u32>,
    pub ispickup: Option<bool>,
    pub lastupdate: Option<String>,
    pub buntai: Option<String>,
    pub novel_type: Option<String>,
    pub callback: Option<String>,
}

impl NovelSearchParams {
    /// The query of a search: JSON output, then each set condition; a gzip
    /// level is sent only where it is in `1..=5`.
    pub open spec fn query_spec(&self) -> Seq<(Seq<char>, Seq<char>)> {
        seq![("out"@, "json"@)]
            + text_pair("word"@, opt_view(self.word))
            + text_pair("notword"@, opt_view(self.notword))
            + flag_pair("title"@, self.title)
            + text_pair("writer"@, opt_view(self.writer))
            + text_pair("ncode"@, opt_view(self.ncode))
            + flag_pair("ex"@, self.ex)
            + flag_pair("keyword"@, self.keyword)
            + flag_pair("wname"@, self.wname)
            + num_pair("userid"@, widen_u32(self.userid))
            + num_pair("genre"@, widen_u32(self.genre))
            + num_pair("biggenre"@, widen_u32(self.biggenre))
            + num_pair("notbiggenre"@, widen_u32(self.notbiggenre))
            + text_pair("notgenre"@, opt_view(self.notgenre))
            + flag_pair("istensei"@, self.istensei)
            + flag_pair("istenni"@, self.istenni)
            + flag_pair("istt"@, self.istt)
            + num_pair("stop"@, widen_u32(self.stop))
            + flag_pair("isbl"@, self.isbl)
            + flag_pair("isgl"@, self.isgl)
            + flag_pair("iszankoku"@, self.iszankoku)
            + flag_pair("isr15"@, self.isr15)
            + flag_pair("ispickup"@, self.ispickup)
            + flag_pair("nottensei"@, self.nottensei)
            + flag_pair("nottenni"@, self.nottenni)
            + flag_pair("notr15"@, self.notr15)
            + flag_pair("notbl"@, self.notbl)
            + flag_pair("notgl"@, self.notgl)
            + flag_pair("notzankoku"@, self.notzankoku)
            + text_pair("length"@, opt_view(self.length))
            + num_pair("minlen"@, widen_u32(self.minlen))
            + num_pair("maxlen"@, widen_u32(self.maxlen))
            + text_pair("kaiwaritu"@, opt_view(self.kaiwaritu))
            + text_pair("sasie"@, opt_view(self.sasie))
            + text_pair("time"@, opt_view(self.time))
            + num_pair("mintime"@, widen_u32(self.mintime))
            + num_pair("maxtime"@, widen_u32(self.maxtime))
            + text_pair("lastup"@, opt_view(self.lastup))
            + text_pair("lastupdate"@, opt_view(self.lastupdate))
            + text_pair("buntai"@, opt_view(self.buntai))
            + text_pair("type"@, opt_view(self.novel_type))
            + num_pair("lim"@, widen_u32(self.limit))
            + num_pair("st"@, widen_u32(self.start))
            + match self.order {
                Some(o) => seq![("order"@, o.name())],
                None => Seq::empty(),
            }
            + text_pair("of"@, opt_view(self.of))
            + text_pair("opt"@, opt_view(self.opt))
            + num_pair("libtype"@, widen_u8(self.libtype))
            + num_pair("updatetype"@, widen_u8(self.updatetype))
            + text_pair("callback"@, opt_view(self.callback))
            + level_pair(self.gzip)
    }

    pub fn to_query(&self) -> (r: Vec<(String, String)>)
        ensures
            pairs_view(r@) == self.query_spec(),
    {
        let mut params: Vec<(String, String)> = Vec::new();
        assert(pairs_view(params@) =~= Seq::empty());
        push_pair(&mut params, "out", "json".to_string());
        assert(Seq::<(Seq<char>, Seq<char>)>::empty() + seq![("out"@, "json"@)] =~= seq![("out"@, "json"@)]);
        push_text(&mut params, "word", &self.word);
        push_text(&mut params, "notword", &self.notword);
        push_flag(&mut params, "title", self.title);
        push_text(&mut params, "writer", &self.writer);
        push_text(&mut params, "ncode", &self.ncode);
        push_flag(&mut params, "ex", self.ex);
        push_flag(&mut params, "keyword", self.keyword);
        push_flag(&mut params, "wname", self.wname);
        push_u32(&mut params, "userid", self.userid);
        push_u32(&mut params, "genre", self.genre);
        push_u32(&mut params, "biggenre", self.biggenre);
        push_u32(&mut params, "notbiggenre", self.notbiggenre);
        push_text(&mut params, "notgenre", &self.notgenre);
        push_flag(&mut params, "istensei", self.istensei);
        push_flag(&mut params, "istenni", self.istenni);
        push_flag(&mut params, "istt", self.istt);
        push_u32(&mut params, "stop", self.stop);
        push_flag(&mut params, "isbl", self.isbl);
        push_flag(&mut params, "isgl", self.isgl);
        push_flag(&mut params, "iszankoku", self.iszankoku);
        push_flag(&mut params, "isr15", self.isr15);
        push_flag(&mut params, "ispickup", self.ispickup);
        push_flag(&mut params, "nottensei", self.nottensei);
        push_flag(&mut params, "nottenni", self.nottenni);
        push_flag(&mut params, "notr15", self.notr15);
        push_flag(&mut params, "notbl", self.notbl);
        push_flag(&mut params, "notgl", self.notgl);
        push_flag(&mut params, "notzankoku", self.notzankoku);
        push_text(&mut params, "length", &self.length);
        push_u32(&mut params, "minlen", self.minlen);
        push_u32(&mut params, "maxlen", self.maxlen);
        push_text(&mut params, "kaiwaritu", &self.kaiwaritu);
        push_text(&mut params, "sasie", &self.sasie);
        push_text(&mut params, "time", &self.time);
        push_u32(&mut params, "mintime", self.mintime);
        push_u32(&mut params, "maxtime", self.maxtime);
        push_text(&mut params, "lastup", &self.lastup);
        push_text(&mut params, "lastupdate", &self.lastupdate);
        push_text(&mut params, "buntai", &self.buntai);
        push_text(&mut params, "type", &self.novel_type);
        push_u32(&mut params, "lim", self.limit);
        push_u32(&mut params, "st", self.start);
        match self.order {
            Some(o) => push_pair(&mut params, "order", o.as_str().to_string()),
            None => {
                assert(pairs_view(params@) + Seq::<(Seq<char>, Seq<char>)>::empty() =~= pairs_view(params@));
            },
        }
        push_text(&mut params, "of", &self.of);
        push_text(&mut params, "opt", &self.opt);
        push_u8(&mut params, "libtype", self.libtype);
        push_u8(&mut params, "updatetype", self.updatetype);
        push_text(&mut params, "callback", &self.callback);
        push_level(&mut params, self.gzip);
        params
    }
}

} // verus!
