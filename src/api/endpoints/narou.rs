use vstd::prelude::*;
use crate::api::common::error::ApiError;
use crate::api::common::params::{agree_but, lemma_agree_but_one, 
    decimal, num_pair, opt_view, pairs_view, push_text, push_u32, push_u8, text_pair, widen_u32, widen_u8,
};
use crate::api::common::request::{format_from_fields, gzip_requested, ApiRequest};
use crate::api::common::response::{key_names, counted, decode_counted, ApiResponse, Entity, OutputFormat};
use crate::api::common::selector::{dash_free, lemma_split_dash_free, lemma_split_join, lemma_split_nonempty, join_dash, join_dashes, split_dash, split_dashes, texts};
use crate::api::common::tree::{
    opt_text, opt_u16, opt_u32, opt_u8, same_text, text_field, u16_field, u32_field, u8_field, Node,
};

verus! {

/// A query of the novel search API.
#[derive(Debug, Clone)]
pub struct NarouRequest {
    pub gzip: Option<u8>,
    pub out: Option<String>,
    pub of: Option<String>,
    pub lim: Option<u32>,
    pub st: Option<u32>,
    pub order: Option<String>,
    pub word: Option<String>,
    pub notword: Option<String>,
    pub title: Option<u8>,
    pub ex: Option<u8>,
    pub keyword: Option<u8>,
    pub wname: Option<u8>,
    pub biggenre: Option<String>,
    pub notbiggenre: Option<String>,
    pub genre: Option<String>,
    pub notgenre: Option<String>,
    pub userid: Option<String>,
    pub isr15: Option<u8>,
    pub isbl: Option<u8>,
    pub isgl: Option<u8>,
    pub iszankoku: Option<u8>,
    pub istensei: Option<u8>,
    pub istenni: Option<u8>,
    pub istt: Option<u8>,
    pub notr15: Option<u8>,
    pub notbl: Option<u8>,
    pub notgl: Option<u8>,
    pub notzankoku: Option<u8>,
    pub nottensei: Option<u8>,
    pub nottenni: Option<u8>,
    pub minlen: Option<u32>,
    pub maxlen: Option<u32>,
    pub length: Option<String>,
    pub kaiwaritu: Option<String>,
    pub sasie: Option<String>,
    pub mintime: Option<u32>,
    pub maxtime: Option<u32>,
    pub time: Option<String>,
    pub ncode: Option<String>,
    pub type_filter: Option<String>,
    pub buntai: Option<String>,
    pub stop: Option<u8>,
    pub lastup: Option<String>,
    pub lastupdate: Option<String>,
    pub ispickup: Option<u8>,
    pub libtype: Option<u8>,
    pub opt: Option<String>,
    pub callback: Option<String>,
    pub updatetype: Option<u8>,
}

impl NarouRequest {
    /// A request for JSON output with every optional field unset.
    pub fn new() -> (r: Self)
        ensures
            r.gzip is None,
            r.out is Some && r.out->0@ == "json"@,
            r.of is None,
            r.lim is None,
            r.st is None,
            r.order is None,
            r.word is None,
            r.notword is None,
            r.title is None,
            r.ex is None,
            r.keyword is None,
            r.wname is None,
            r.biggenre is None,
            r.notbiggenre is None,
            r.genre is None,
            r.notgenre is None,
            r.userid is None,
            r.isr15 is None,
            r.isbl is None,
            r.isgl is None,
            r.iszankoku is None,
            r.istensei is None,
            r.istenni is None,
            r.istt is None,
            r.notr15 is None,
            r.notbl is None,
            r.notgl is None,
            r.notzankoku is None,
            r.nottensei is None,
            r.nottenni is None,
            r.minlen is None,
            r.maxlen is None,
            r.length is None,
            r.kaiwaritu is None,
            r.sasie is None,
            r.mintime is None,
            r.maxtime is None,
            r.time is None,
            r.ncode is None,
            r.type_filter is None,
            r.buntai is None,
            r.stop is None,
            r.lastup is None,
            r.lastupdate is None,
            r.ispickup is None,
            r.libtype is None,
            r.opt is None,
            r.callback is None,
            r.updatetype is None,
    {
        Self {
            gzip: None,
            out: Some("json".to_string()),
            of: None,
            lim: None,
            st: None,
            order: None,
            word: None,
            notword: None,
            title: None,
            ex: None,
            keyword: None,
            wname: None,
            biggenre: None,
            notbiggenre: None,
            genre: None,
            notgenre: None,
            userid: None,
            isr15: None,
            isbl: None,
            isgl: None,
            iszankoku: None,
            istensei: None,
            istenni: None,
            istt: None,
            notr15: None,
            notbl: None,
            notgl: None,
            notzankoku: None,
            nottensei: None,
            nottenni: None,
            minlen: None,
            maxlen: None,
            length: None,
            kaiwaritu: None,
            sasie: None,
            mintime: None,
            maxtime: None,
            time: None,
            ncode: None,
            type_filter: None,
            buntai: None,
            stop: None,
            lastup: None,
            lastupdate: None,
            ispickup: None,
            libtype: None,
            opt: None,
            callback: None,
            updatetype: None,
        }
    }

    /// The query parameters in declaration order, with `of` as the value of
    /// the field selector.
    pub open spec fn query_with(&self, of: Option<Seq<char>>) -> Seq<(Seq<char>, Seq<char>)> {
        Seq::empty()
            + num_pair("gzip"@, widen_u8(self.gzip))
            + text_pair("out"@, opt_view(self.out))
            + text_pair("of"@, of)
            + num_pair("lim"@, widen_u32(self.lim))
            + num_pair("st"@, widen_u32(self.st))
            + text_pair("order"@, opt_view(self.order))
            + text_pair("word"@, opt_view(self.word))
            + text_pair("notword"@, opt_view(self.notword))
            + num_pair("title"@, widen_u8(self.title))
            + num_pair("ex"@, widen_u8(self.ex))
            + num_pair("keyword"@, widen_u8(self.keyword))
            + num_pair("wname"@, widen_u8(self.wname))
            + text_pair("biggenre"@, opt_view(self.biggenre))
            + text_pair("notbiggenre"@, opt_view(self.notbiggenre))
            + text_pair("genre"@, opt_view(self.genre))
            + text_pair("notgenre"@, opt_view(self.notgenre))
            + text_pair("userid"@, opt_view(self.userid))
            + num_pair("isr15"@, widen_u8(self.isr15))
            + num_pair("isbl"@, widen_u8(self.isbl))
            + num_pair("isgl"@, widen_u8(self.isgl))
            + num_pair("iszankoku"@, widen_u8(self.iszankoku))
            + num_pair("istensei"@, widen_u8(self.istensei))
            + num_pair("istenni"@, widen_u8(self.istenni))
            + num_pair("istt"@, widen_u8(self.istt))
            + num_pair("notr15"@, widen_u8(self.notr15))
            + num_pair("notbl"@, widen_u8(self.notbl))
            + num_pair("notgl"@, widen_u8(self.notgl))
            + num_pair("notzankoku"@, widen_u8(self.notzankoku))
            + num_pair("nottensei"@, widen_u8(self.nottensei))
            + num_pair("nottenni"@, widen_u8(self.nottenni))
            + num_pair("minlen"@, widen_u32(self.minlen))
            + num_pair("maxlen"@, widen_u32(self.maxlen))
            + text_pair("length"@, opt_view(self.length))
            + text_pair("kaiwaritu"@, opt_view(self.kaiwaritu))
            + text_pair("sasie"@, opt_view(self.sasie))
            + num_pair("mintime"@, widen_u32(self.mintime))
            + num_pair("maxtime"@, widen_u32(self.maxtime))
            + text_pair("time"@, opt_view(self.time))
            + text_pair("ncode"@, opt_view(self.ncode))
            + text_pair("type"@, opt_view(self.type_filter))
            + text_pair("buntai"@, opt_view(self.buntai))
            + num_pair("stop"@, widen_u8(self.stop))
            + text_pair("lastup"@, opt_view(self.lastup))
            + text_pair("lastupdate"@, opt_view(self.lastupdate))
            + num_pair("ispickup"@, widen_u8(self.ispickup))
            + num_pair("libtype"@, widen_u8(self.libtype))
            + text_pair("opt"@, opt_view(self.opt))
            + text_pair("callback"@, opt_view(self.callback))
            + num_pair("updatetype"@, widen_u8(self.updatetype))
    }

    fn params_with_of(&self, of: &Option<String>) -> (r: Vec<(String, String)>)
        ensures
            pairs_view(r@) == self.query_with(opt_view(*of)),
    {
        let mut params: Vec<(String, String)> = Vec::new();
        assert(pairs_view(params@) =~= Seq::empty());
        push_u8(&mut params, "gzip", self.gzip);
        push_text(&mut params, "out", &self.out);
        push_text(&mut params, "of", of);
        push_u32(&mut params, "lim", self.lim);
        push_u32(&mut params, "st", self.st);
        push_text(&mut params, "order", &self.order);
        push_text(&mut params, "word", &self.word);
        push_text(&mut params, "notword", &self.notword);
        push_u8(&mut params, "title", self.title);
        push_u8(&mut params, "ex", self.ex);
        push_u8(&mut params, "keyword", self.keyword);
        push_u8(&mut params, "wname", self.wname);
        push_text(&mut params, "biggenre", &self.biggenre);
        push_text(&mut params, "notbiggenre", &self.notbiggenre);
        push_text(&mut params, "genre", &self.genre);
        push_text(&mut params, "notgenre", &self.notgenre);
        push_text(&mut params, "userid", &self.userid);
        push_u8(&mut params, "isr15", self.isr15);
        push_u8(&mut params, "isbl", self.isbl);
        push_u8(&mut params, "isgl", self.isgl);
        push_u8(&mut params, "iszankoku", self.iszankoku);
        push_u8(&mut params, "istensei", self.istensei);
        push_u8(&mut params, "istenni", self.istenni);
        push_u8(&mut params, "istt", self.istt);
        push_u8(&mut params, "notr15", self.notr15);
        push_u8(&mut params, "notbl", self.notbl);
        push_u8(&mut params, "notgl", self.notgl);
        push_u8(&mut params, "notzankoku", self.notzankoku);
        push_u8(&mut params, "nottensei", self.nottensei);
        push_u8(&mut params, "nottenni", self.nottenni);
        push_u32(&mut params, "minlen", self.minlen);
        push_u32(&mut params, "maxlen", self.maxlen);
        push_text(&mut params, "length", &self.length);
        push_text(&mut params, "kaiwaritu", &self.kaiwaritu);
        push_text(&mut params, "sasie", &self.sasie);
        push_u32(&mut params, "mintime", self.mintime);
        push_u32(&mut params, "maxtime", self.maxtime);
        push_text(&mut params, "time", &self.time);
        push_text(&mut params, "ncode", &self.ncode);
        push_text(&mut params, "type", &self.type_filter);
        push_text(&mut params, "buntai", &self.buntai);
        push_u8(&mut params, "stop", self.stop);
        push_text(&mut params, "lastup", &self.lastup);
        push_text(&mut params, "lastupdate", &self.lastupdate);
        push_u8(&mut params, "ispickup", self.ispickup);
        push_u8(&mut params, "libtype", self.libtype);
        push_text(&mut params, "opt", &self.opt);
        push_text(&mut params, "callback", &self.callback);
        push_u8(&mut params, "updatetype", self.updatetype);
        params
    }
}

impl NarouRequest {
    /// No optional field is set.
    pub open spec fn all_unset(&self) -> bool {
        self.gzip is None
            && self.out is None
            && self.of is None
            && self.lim is None
            && self.st is None
            && self.order is None
            && self.word is None
            && self.notword is None
            && self.title is None
            && self.ex is None
            && self.keyword is None
            && self.wname is None
            && self.biggenre is None
            && self.notbiggenre is None
            && self.genre is None
            && self.notgenre is None
            && self.userid is None
            && self.isr15 is None
            && self.isbl is None
            && self.isgl is None
            && self.iszankoku is None
            && self.istensei is None
            && self.istenni is None
            && self.istt is None
            && self.notr15 is None
            && self.notbl is None
            && self.notgl is None
            && self.notzankoku is None
            && self.nottensei is None
            && self.nottenni is None
            && self.minlen is None
            && self.maxlen is None
            && self.length is None
            && self.kaiwaritu is None
            && self.sasie is None
            && self.mintime is None
            && self.maxtime is None
            && self.time is None
            && self.ncode is None
            && self.type_filter is None
            && self.buntai is None
            && self.stop is None
            && self.lastup is None
            && self.lastupdate is None
            && self.ispickup is None
            && self.libtype is None
            && self.opt is None
            && self.callback is None
            && self.updatetype is None
    }
}

/// With no optional field set, the query holds no parameter.
pub proof fn lemma_narou_request_unset_query(r: NarouRequest)
    requires
        r.all_unset(),
    ensures
        r.query() == Seq::<(Seq<char>, Seq<char>)>::empty(),
{
    assert(r.query() =~= Seq::<(Seq<char>, Seq<char>)>::empty());
}

/// With only `lim` set, the query is the one pair for it.
pub proof fn lemma_narou_request_only_lim(r: NarouRequest, v: u32)
    requires
        r.lim == Some(v),
        r.gzip is None,
        r.out is None,
        r.of is None,
        r.st is None,
        r.order is None,
        r.word is None,
        r.notword is None,
        r.title is None,
        r.ex is None,
        r.keyword is None,
        r.wname is None,
        r.biggenre is None,
        r.notbiggenre is None,
        r.genre is None,
        r.notgenre is None,
        r.userid is None,
        r.isr15 is None,
        r.isbl is None,
        r.isgl is None,
        r.iszankoku is None,
        r.istensei is None,
        r.istenni is None,
        r.istt is None,
        r.notr15 is None,
        r.notbl is None,
        r.notgl is None,
        r.notzankoku is None,
        r.nottensei is None,
        r.nottenni is None,
        r.minlen is None,
        r.maxlen is None,
        r.length is None,
        r.kaiwaritu is None,
        r.sasie is None,
        r.mintime is None,
        r.maxtime is None,
        r.time is None,
        r.ncode is None,
        r.type_filter is None,
        r.buntai is None,
        r.stop is None,
        r.lastup is None,
        r.lastupdate is None,
        r.ispickup is None,
        r.libtype is None,
        r.opt is None,
        r.callback is None,
        r.updatetype is None,
    ensures
        r.query() == seq![("lim"@, decimal(v as nat))],
{
    assert(r.query() =~= seq![("lim"@, decimal(v as nat))]);
}

/// With only `word` set, the query is the one pair for it.
pub proof fn lemma_narou_request_only_word(r: NarouRequest, v: String)
    requires
        r.word == Some(v),
        r.gzip is None,
        r.out is None,
        r.of is None,
        r.lim is None,
        r.st is None,
        r.order is None,
        r.notword is None,
        r.title is None,
        r.ex is None,
        r.keyword is None,
        r.wname is None,
        r.biggenre is None,
        r.notbiggenre is None,
        r.genre is None,
        r.notgenre is None,
        r.userid is None,
        r.isr15 is None,
        r.isbl is None,
        r.isgl is None,
        r.iszankoku is None,
        r.istensei is None,
        r.istenni is None,
        r.istt is None,
        r.notr15 is None,
        r.notbl is None,
        r.notgl is None,
        r.notzankoku is None,
        r.nottensei is None,
        r.nottenni is None,
        r.minlen is None,
        r.maxlen is None,
        r.length is None,
        r.kaiwaritu is None,
        r.sasie is None,
        r.mintime is None,
        r.maxtime is None,
        r.time is None,
        r.ncode is None,
        r.type_filter is None,
        r.buntai is None,
        r.stop is None,
        r.lastup is None,
        r.lastupdate is None,
        r.ispickup is None,
        r.libtype is None,
        r.opt is None,
        r.callback is None,
        r.updatetype is None,
    ensures
        r.query() == seq![("word"@, v@)],
{
    assert(r.query() =~= seq![("word"@, v@)]);
}

/// With only `ncode` set, the query is the one pair for it.
pub proof fn lemma_narou_request_only_ncode(r: NarouRequest, v: String)
    requires
        r.ncode == Some(v),
        r.gzip is None,
        r.out is None,
        r.of is None,
        r.lim is None,
        r.st is None,
        r.order is None,
        r.word is None,
        r.notword is None,
        r.title is None,
        r.ex is None,
        r.keyword is None,
        r.wname is None,
        r.biggenre is None,
        r.notbiggenre is None,
        r.genre is None,
        r.notgenre is None,
        r.userid is None,
        r.isr15 is None,
        r.isbl is None,
        r.isgl is None,
        r.iszankoku is None,
        r.istensei is None,
        r.istenni is None,
        r.istt is None,
        r.notr15 is None,
        r.notbl is None,
        r.notgl is None,
        r.notzankoku is None,
        r.nottensei is None,
        r.nottenni is None,
        r.minlen is None,
        r.maxlen is None,
        r.length is None,
        r.kaiwaritu is None,
        r.sasie is None,
        r.mintime is None,
        r.maxtime is None,
        r.time is None,
        r.type_filter is None,
        r.buntai is None,
        r.stop is None,
        r.lastup is None,
        r.lastupdate is None,
        r.ispickup is None,
        r.libtype is None,
        r.opt is None,
        r.callback is None,
        r.updatetype is None,
    ensures
        r.query() == seq![("ncode"@, v@)],
{
    assert(r.query() =~= seq![("ncode"@, v@)]);
}

impl ApiRequest for NarouRequest {
    open spec fn query(&self) -> Seq<(Seq<char>, Seq<char>)> {
        self.query_with(opt_view(self.of))
    }

    open spec fn out_field(&self) -> Option<String> {
        self.out
    }

    open spec fn gzip_field(&self) -> Option<u8> {
        self.gzip
    }

    open spec fn callback_field(&self) -> Option<String> {
        self.callback
    }

    fn to_query_params(&self) -> (r: Vec<(String, String)>) {
        self.params_with_of(&self.of)
    }

    fn output_format(&self) -> (r: OutputFormat) {
        format_from_fields(&self.out, &self.callback)
    }

    fn is_gzip(&self) -> (r: bool) {
        gzip_requested(self.gzip)
    }

    fn get_callback(&self) -> (r: Option<String>) {
        match &self.callback {
            Some(c) => Some(c.clone()),
            None => None,
        }
    }
}

/// One novel record.
#[derive(Debug, Clone, PartialEq)]
pub struct NarouNovelInfo {
    pub title: Option<String>,
    pub ncode: Option<String>,
    pub userid: Option<u32>,
    pub writer: Option<String>,
    pub story: Option<String>,
    pub biggenre: Option<u8>,
    pub genre: Option<u16>,
    pub gensaku: Option<String>,
    pub keyword: Option<String>,
    pub general_firstup: Option<String>,
    pub general_lastup: Option<String>,
    pub novel_type: Option<u8>,
    pub end: Option<u8>,
    pub general_all_no: Option<u32>,
    pub length: Option<u32>,
    pub time: Option<u32>,
    pub isstop: Option<u8>,
    pub isr15: Option<u8>,
    pub isbl: Option<u8>,
    pub isgl: Option<u8>,
    pub iszankoku: Option<u8>,
    pub istensei: Option<u8>,
    pub istenni: Option<u8>,
    pub global_point: Option<u32>,
    pub daily_point: Option<u32>,
    pub weekly_point: Option<u32>,
    pub monthly_point: Option<u32>,
    pub quarter_point: Option<u32>,
    pub yearly_point: Option<u32>,
    pub fav_novel_cnt: Option<u32>,
    pub impression_cnt: Option<u32>,
    pub review_cnt: Option<u32>,
    pub all_point: Option<u32>,
    pub all_hyoka_cnt: Option<u32>,
    pub sasie_cnt: Option<u32>,
    pub kaiwaritu: Option<u8>,
    pub novelupdated_at: Option<String>,
    pub updated_at: Option<String>,
    pub weekly_unique: Option<u32>,
}

impl Entity for NarouNovelInfo {
    open spec fn shape() -> Seq<Seq<char>> {
        seq!["ncode"@]
    }

    fn shape_keys() -> (r: Vec<&'static str>) {
        let keys: Vec<&'static str> = vec!["ncode"];
        assert(key_names(keys@) =~= seq!["ncode"@]);
        keys
    }

    /// A map whose entries fit the field types; absent and null optional
    /// fields read as `None`, unknown entries are ignored.
    open spec fn decoded(n: Node) -> Option<Self> {
        match n {
            Node::Dict(e) => {
                let title = text_field(e@, "title"@);
                let ncode = text_field(e@, "ncode"@);
                let userid = u32_field(e@, "userid"@);
                let writer = text_field(e@, "writer"@);
                let story = text_field(e@, "story"@);
                let biggenre = u8_field(e@, "biggenre"@);
                let genre = u16_field(e@, "genre"@);
                let gensaku = text_field(e@, "gensaku"@);
                let keyword = text_field(e@, "keyword"@);
                let general_firstup = text_field(e@, "general_firstup"@);
                let general_lastup = text_field(e@, "general_lastup"@);
                let novel_type = u8_field(e@, "novel_type"@);
                let end = u8_field(e@, "end"@);
                let general_all_no = u32_field(e@, "general_all_no"@);
                let length = u32_field(e@, "length"@);
                let time = u32_field(e@, "time"@);
                let isstop = u8_field(e@, "isstop"@);
                let isr15 = u8_field(e@, "isr15"@);
                let isbl = u8_field(e@, "isbl"@);
                let isgl = u8_field(e@, "isgl"@);
                let iszankoku = u8_field(e@, "iszankoku"@);
                let istensei = u8_field(e@, "istensei"@);
                let istenni = u8_field(e@, "istenni"@);
                let global_point = u32_field(e@, "global_point"@);
                let daily_point = u32_field(e@, "daily_point"@);
                let weekly_point = u32_field(e@, "weekly_point"@);
                let monthly_point = u32_field(e@, "monthly_point"@);
                let quarter_point = u32_field(e@, "quarter_point"@);
                let yearly_point = u32_field(e@, "yearly_point"@);
                let fav_novel_cnt = u32_field(e@, "fav_novel_cnt"@);
                let impression_cnt = u32_field(e@, "impression_cnt"@);
                let review_cnt = u32_field(e@, "review_cnt"@);
                let all_point = u32_field(e@, "all_point"@);
                let all_hyoka_cnt = u32_field(e@, "all_hyoka_cnt"@);
                let sasie_cnt = u32_field(e@, "sasie_cnt"@);
                let kaiwaritu = u8_field(e@, "kaiwaritu"@);
                let novelupdated_at = text_field(e@, "novelupdated_at"@);
                let updated_at = text_field(e@, "updated_at"@);
                let weekly_unique = u32_field(e@, "weekly_unique"@);
                if title is Some
                    && ncode is Some
                    && userid is Some
                    && writer is Some
                    && story is Some
                    && biggenre is Some
                    && genre is Some
                    && gensaku is Some
                    && keyword is Some
                    && general_firstup is Some
                    && general_lastup is Some
                    && novel_type is Some
                    && end is Some
                    && general_all_no is Some
                    && length is Some
                    && time is Some
                    && isstop is Some
                    && isr15 is Some
                    && isbl is Some
                    && isgl is Some
                    && iszankoku is Some
                    && istensei is Some
                    && istenni is Some
                    && global_point is Some
                    && daily_point is Some
                    && weekly_point is Some
                    && monthly_point is Some
                    && quarter_point is Some
                    && yearly_point is Some
                    && fav_novel_cnt is Some
                    && impression_cnt is Some
                    && review_cnt is Some
                    && all_point is Some
                    && all_hyoka_cnt is Some
                    && sasie_cnt is Some
                    && kaiwaritu is Some
                    && novelupdated_at is Some
                    && updated_at is Some
                    && weekly_unique is Some {
                    Some(NarouNovelInfo {
                        title: title->0,
                        ncode: ncode->0,
                        userid: userid->0,
                        writer: writer->0,
                        story: story->0,
                        biggenre: biggenre->0,
                        genre: genre->0,
                        gensaku: gensaku->0,
                        keyword: keyword->0,
                        general_firstup: general_firstup->0,
                        general_lastup: general_lastup->0,
                        novel_type: novel_type->0,
                        end: end->0,
                        general_all_no: general_all_no->0,
                        length: length->0,
                        time: time->0,
                        isstop: isstop->0,
                        isr15: isr15->0,
                        isbl: isbl->0,
                        isgl: isgl->0,
                        iszankoku: iszankoku->0,
                        istensei: istensei->0,
                        istenni: istenni->0,
                        global_point: global_point->0,
                        daily_point: daily_point->0,
                        weekly_point: weekly_point->0,
                        monthly_point: monthly_point->0,
                        quarter_point: quarter_point->0,
                        yearly_point: yearly_point->0,
                        fav_novel_cnt: fav_novel_cnt->0,
                        impression_cnt: impression_cnt->0,
                        review_cnt: review_cnt->0,
                        all_point: all_point->0,
                        all_hyoka_cnt: all_hyoka_cnt->0,
                        sasie_cnt: sasie_cnt->0,
                        kaiwaritu: kaiwaritu->0,
                        novelupdated_at: novelupdated_at->0,
                        updated_at: updated_at->0,
                        weekly_unique: weekly_unique->0,
                    })
                } else {
                    None
                }
            },
            _ => None,
        }
    }

    fn from_node(n: &Node) -> (r: Result<Self, ApiError>) {
        match n {
            Node::Dict(e) => {
                let title = opt_text(e, "title")?;
                let ncode = opt_text(e, "ncode")?;
                let userid = opt_u32(e, "userid")?;
                let writer = opt_text(e, "writer")?;
                let story = opt_text(e, "story")?;
                let biggenre = opt_u8(e, "biggenre")?;
                let genre = opt_u16(e, "genre")?;
                let gensaku = opt_text(e, "gensaku")?;
                let keyword = opt_text(e, "keyword")?;
                let general_firstup = opt_text(e, "general_firstup")?;
                let general_lastup = opt_text(e, "general_lastup")?;
                let novel_type = opt_u8(e, "novel_type")?;
                let end = opt_u8(e, "end")?;
                let general_all_no = opt_u32(e, "general_all_no")?;
                let length = opt_u32(e, "length")?;
                let time = opt_u32(e, "time")?;
                let isstop = opt_u8(e, "isstop")?;
                let isr15 = opt_u8(e, "isr15")?;
                let isbl = opt_u8(e, "isbl")?;
                let isgl = opt_u8(e, "isgl")?;
                let iszankoku = opt_u8(e, "iszankoku")?;
                let istensei = opt_u8(e, "istensei")?;
                let istenni = opt_u8(e, "istenni")?;
                let global_point = opt_u32(e, "global_point")?;
                let daily_point = opt_u32(e, "daily_point")?;
                let weekly_point = opt_u32(e, "weekly_point")?;
                let monthly_point = opt_u32(e, "monthly_point")?;
                let quarter_point = opt_u32(e, "quarter_point")?;
                let yearly_point = opt_u32(e, "yearly_point")?;
                let fav_novel_cnt = opt_u32(e, "fav_novel_cnt")?;
                let impression_cnt = opt_u32(e, "impression_cnt")?;
                let review_cnt = opt_u32(e, "review_cnt")?;
                let all_point = opt_u32(e, "all_point")?;
                let all_hyoka_cnt = opt_u32(e, "all_hyoka_cnt")?;
                let sasie_cnt = opt_u32(e, "sasie_cnt")?;
                let kaiwaritu = opt_u8(e, "kaiwaritu")?;
                let novelupdated_at = opt_text(e, "novelupdated_at")?;
                let updated_at = opt_text(e, "updated_at")?;
                let weekly_unique = opt_u32(e, "weekly_unique")?;
                Ok(NarouNovelInfo {
                    title,
                    ncode,
                    userid,
                    writer,
                    story,
                    biggenre,
                    genre,
                    gensaku,
                    keyword,
                    general_firstup,
                    general_lastup,
                    novel_type,
                    end,
                    general_all_no,
                    length,
                    time,
                    isstop,
                    isr15,
                    isbl,
                    isgl,
                    iszankoku,
                    istensei,
                    istenni,
                    global_point,
                    daily_point,
                    weekly_point,
                    monthly_point,
                    quarter_point,
                    yearly_point,
                    fav_novel_cnt,
                    impression_cnt,
                    review_cnt,
                    all_point,
                    all_hyoka_cnt,
                    sasie_cnt,
                    kaiwaritu,
                    novelupdated_at,
                    updated_at,
                    weekly_unique,
                })
            },
            _ => Err(ApiError::Deserialization("a record is not a map".to_string())),
        }
    }
}

/// The novel search answer: the total count, where sent, and the novels.
#[derive(Debug, Clone)]
pub struct NarouResponse {
    pub allcount: Option<u32>,
    pub novels: Vec<NarouNovelInfo>,
}

impl View for NarouResponse {
    type V = (Option<u32>, Seq<NarouNovelInfo>);

    open spec fn view(&self) -> Self::V {
        (self.allcount, self.novels@)
    }
}

impl ApiResponse for NarouResponse {
    open spec fn decoded(tree: Node) -> Option<Self::V> {
        counted::<NarouNovelInfo>(tree)
    }

    fn from_tree(tree: &Node) -> (r: Result<Self, ApiError>) {
        let (allcount, novels) = decode_counted::<NarouNovelInfo>(tree)?;
        Ok(NarouResponse { allcount, novels })
    }
}

/// The novel search endpoint.
pub struct NarouApiClient;

/// The field name that a short selector code stands for; an unknown code
/// stands for itself.
pub open spec fn novel_field_name(code: Seq<char>) -> Seq<char> {
    if code == "t"@ {
        "title"@
    } else if code == "n"@ {
        "ncode"@
    } else if code == "u"@ {
        "userid"@
    } else if code == "w"@ {
        "writer"@
    } else if code == "s"@ {
        "story"@
    } else if code == "bg"@ {
        "biggenre"@
    } else if code == "g"@ {
        "genre"@
    } else if code == "gp"@ {
        "global_point"@
    } else if code == "dp"@ {
        "daily_point"@
    } else if code == "wp"@ {
        "weekly_point"@
    } else if code == "mp"@ {
        "monthly_point"@
    } else if code == "qp"@ {
        "quarter_point"@
    } else if code == "yp"@ {
        "yearly_point"@
    } else if code == "f"@ {
        "fav_novel_cnt"@
    } else if code == "im"@ {
        "impression_cnt"@
    } else if code == "r"@ {
        "review_cnt"@
    } else if code == "a"@ {
        "all_point"@
    } else if code == "ah"@ {
        "all_hyoka_cnt"@
    } else if code == "sa"@ {
        "sasie_cnt"@
    } else if code == "ka"@ {
        "kaiwaritu"@
    } else if code == "nu"@ {
        "novelupdated_at"@
    } else if code == "ua"@ {
        "updated_at"@
    } else if code == "nt"@ {
        "novel_type"@
    } else if code == "e"@ {
        "end"@
    } else if code == "ga"@ {
        "general_all_no"@
    } else if code == "l"@ {
        "length"@
    } else if code == "ti"@ {
        "time"@
    } else if code == "i"@ {
        "isstop"@
    } else if code == "ir"@ {
        "isr15"@
    } else if code == "ibl"@ {
        "isbl"@
    } else if code == "igl"@ {
        "isgl"@
    } else if code == "izk"@ {
        "iszankoku"@
    } else if code == "its"@ {
        "istensei"@
    } else if code == "iti"@ {
        "istenni"@
    } else if code == "gf"@ {
        "general_firstup"@
    } else if code == "gl"@ {
        "general_lastup"@
    } else if code == "k"@ {
        "keyword"@
    } else if code == "gs"@ {
        "gensaku"@
    } else if code == "wu"@ {
        "weekly_unique"@
    } else {
        code
    }
}

pub open spec fn novel_field_names(codes: Seq<Seq<char>>) -> Seq<Seq<char>> {
    codes.map_values(|c: Seq<char>| novel_field_name(c))
}

/// A field selector with each code replaced by its field name.
pub open spec fn novel_selector(s: Seq<char>) -> Seq<char> {
    join_dash(novel_field_names(split_dash(s)))
}

fn novel_field_name_of<'a>(code: &'a str) -> (r: &'a str)
    ensures
        r@ == novel_field_name(code@),
{
    if same_text(code, "t") {
        "title"
    } else if same_text(code, "n") {
        "ncode"
    } else if same_text(code, "u") {
        "userid"
    } else if same_text(code, "w") {
        "writer"
    } else if same_text(code, "s") {
        "story"
    } else if same_text(code, "bg") {
        "biggenre"
    } else if same_text(code, "g") {
        "genre"
    } else if same_text(code, "gp") {
        "global_point"
    } else if same_text(code, "dp") {
        "daily_point"
    } else if same_text(code, "wp") {
        "weekly_point"
    } else if same_text(code, "mp") {
        "monthly_point"
    } else if same_text(code, "qp") {
        "quarter_point"
    } else if same_text(code, "yp") {
        "yearly_point"
    } else if same_text(code, "f") {
        "fav_novel_cnt"
    } else if same_text(code, "im") {
        "impression_cnt"
    } else if same_text(code, "r") {
        "review_cnt"
    } else if same_text(code, "a") {
        "all_point"
    } else if same_text(code, "ah") {
        "all_hyoka_cnt"
    } else if same_text(code, "sa") {
        "sasie_cnt"
    } else if same_text(code, "ka") {
        "kaiwaritu"
    } else if same_text(code, "nu") {
        "novelupdated_at"
    } else if same_text(code, "ua") {
        "updated_at"
    } else if same_text(code, "nt") {
        "novel_type"
    } else if same_text(code, "e") {
        "end"
    } else if same_text(code, "ga") {
        "general_all_no"
    } else if same_text(code, "l") {
        "length"
    } else if same_text(code, "ti") {
        "time"
    } else if same_text(code, "i") {
        "isstop"
    } else if same_text(code, "ir") {
        "isr15"
    } else if same_text(code, "ibl") {
        "isbl"
    } else if same_text(code, "igl") {
        "isgl"
    } else if same_text(code, "izk") {
        "iszankoku"
    } else if same_text(code, "its") {
        "istensei"
    } else if same_text(code, "iti") {
        "istenni"
    } else if same_text(code, "gf") {
        "general_firstup"
    } else if same_text(code, "gl") {
        "general_lastup"
    } else if same_text(code, "k") {
        "keyword"
    } else if same_text(code, "gs") {
        "gensaku"
    } else if same_text(code, "wu") {
        "weekly_unique"
    } else {
        code
    }
}

impl NarouApiClient {
    pub fn base_url(&self) -> (r: &'static str)
        ensures
            r@ == "https://api.syosetu.com/novelapi/api/"@,
    {
        "https://api.syosetu.com/novelapi/api/"
    }

    /// The query parameters of `request`, with its field selector remapped.
    pub fn build_query_params(&self, request: &NarouRequest) -> (r: Vec<(String, String)>)
        ensures
            pairs_view(r@) == request.query_with(match request.of {
                Some(of) => Some(novel_selector(of@)),
                None => None,
            }),
    {
        let of = match &request.of {
            Some(o) => Some(self.map_of_fields(o.as_str())),
            None => None,
        };
        request.params_with_of(&of)
    }

    /// Replaces each `-`-separated code of a field selector by its field name.
    pub fn map_of_fields(&self, of_fields: &str) -> (r: String)
        ensures
            r@ == novel_selector(of_fields@),
    {
        let parts = split_dashes(of_fields);
        let mut mapped: Vec<&str> = Vec::new();
        let mut i: usize = 0;
        assert(texts(mapped@) =~= novel_field_names(texts(parts@).take(0)));
        while i < parts.len()
            invariant
                i <= parts@.len(),
                texts(mapped@) == novel_field_names(texts(parts@).take(i as int)),
            decreases parts@.len() - i,
        {
            let name = novel_field_name_of(parts[i]);
            let ghost before = mapped@;
            mapped.push(name);
            assert(texts(parts@)[i as int] == parts@[i as int]@);
            assert(texts(parts@).take(i + 1) =~= texts(parts@).take(i as int).push(parts@[i as int]@));
            assert(texts(mapped@) =~= texts(before).push(name@));
            assert(novel_field_names(texts(parts@).take(i as int).push(parts@[i as int]@))
                =~= novel_field_names(texts(parts@).take(i as int)).push(novel_field_name(parts@[i as int]@)));
            assert(texts(mapped@) =~= novel_field_names(texts(parts@).take(i + 1)));
            i = i + 1;
        }
        assert(texts(parts@).take(parts@.len() as int) =~= texts(parts@));
        join_dashes(&mapped)
    }
}

/// Every field name of the selector table is free of `-`, and so is the
/// name of a `-`-free code.
pub proof fn lemma_novel_field_name_dash_free(code: Seq<char>)
    requires
        dash_free(code),
    ensures
        dash_free(novel_field_name(code)),
{
    if code == "t"@ {
        reveal_strlit("title");
        assert forall|i: int| 0 <= i < "title"@.len() implies "title"@[i] != '-' by {
            if i == 0 {} else if i == 1 {} else if i == 2 {} else if i == 3 {} else if i == 4 {}
        }
    } else if code == "n"@ {
        reveal_strlit("ncode");
        assert forall|i: int| 0 <= i < "ncode"@.len() implies "ncode"@[i] != '-' by {
            if i == 0 {} else if i == 1 {} else if i == 2 {} else if i == 3 {} else if i == 4 {}
        }
    } else if code == "u"@ {
        reveal_strlit("userid");
        assert forall|i: int| 0 <= i < "userid"@.len() implies "userid"@[i] != '-' by {
            if i == 0 {} else if i == 1 {} else if i == 2 {} else if i == 3 {} else if i == 4 {} else if i == 5 {}
        }
    } else if code == "w"@ {
        reveal_strlit("writer");
        assert forall|i: int| 0 <= i < "writer"@.len() implies "writer"@[i] != '-' by {
            if i == 0 {} else if i == 1 {} else if i == 2 {} else if i == 3 {} else if i == 4 {} else if i == 5 {}
        }
    } else if code == "s"@ {
        reveal_strlit("story");
        assert forall|i: int| 0 <= i < "story"@.len() implies "story"@[i] != '-' by {
            if i == 0 {} else if i == 1 {} else if i == 2 {} else if i == 3 {} else if i == 4 {}
        }
    } else if code == "bg"@ {
        reveal_strlit("biggenre");
        assert forall|i: int| 0 <= i < "biggenre"@.len() implies "biggenre"@[i] != '-' by {
            if i == 0 {} else if i == 1 {} else if i == 2 {} else if i == 3 {} else if i == 4 {} else if i == 5 {} else if i == 6 {} else if i == 7 {}
        }
    } else if code == "g"@ {
        reveal_strlit("genre");
        assert forall|i: int| 0 <= i < "genre"@.len() implies "genre"@[i] != '-' by {
            if i == 0 {} else if i == 1 {} else if i == 2 {} else if i == 3 {} else if i == 4 {}
        }
    } else if code == "gp"@ {
        reveal_strlit("global_point");
        assert forall|i: int| 0 <= i < "global_point"@.len() implies "global_point"@[i] != '-' by {
            if i == 0 {} else if i == 1 {} else if i == 2 {} else if i == 3 {} else if i == 4 {} else if i == 5 {} else if i == 6 {} else if i == 7 {} else if i == 8 {} else if i == 9 {} else if i == 10 {} else if i == 11 {}
        }
    } else if code == "dp"@ {
        reveal_strlit("daily_point");
        assert forall|i: int| 0 <= i < "daily_point"@.len() implies "daily_point"@[i] != '-' by {
            if i == 0 {} else if i == 1 {} else if i == 2 {} else if i == 3 {} else if i == 4 {} else if i == 5 {} else if i == 6 {} else if i == 7 {} else if i == 8 {} else if i == 9 {} else if i == 10 {}
        }
    } else if code == "wp"@ {
        reveal_strlit("weekly_point");
        assert forall|i: int| 0 <= i < "weekly_point"@.len() implies "weekly_point"@[i] != '-' by {
            if i == 0 {} else if i == 1 {} else if i == 2 {} else if i == 3 {} else if i == 4 {} else if i == 5 {} else if i == 6 {} else if i == 7 {} else if i == 8 {} else if i == 9 {} else if i == 10 {} else if i == 11 {}
        }
    } else if code == "mp"@ {
        reveal_strlit("monthly_point");
        assert forall|i: int| 0 <= i < "monthly_point"@.len() implies "monthly_point"@[i] != '-' by {
            if i == 0 {} else if i == 1 {} else if i == 2 {} else if i == 3 {} else if i == 4 {} else if i == 5 {} else if i == 6 {} else if i == 7 {} else if i == 8 {} else if i == 9 {} else if i == 10 {} else if i == 11 {} else if i == 12 {}
        }
    } else if code == "qp"@ {
        reveal_strlit("quarter_point");
        assert forall|i: int| 0 <= i < "quarter_point"@.len() implies "quarter_point"@[i] != '-' by {
            if i == 0 {} else if i == 1 {} else if i == 2 {} else if i == 3 {} else if i == 4 {} else if i == 5 {} else if i == 6 {} else if i == 7 {} else if i == 8 {} else if i == 9 {} else if i == 10 {} else if i == 11 {} else if i == 12 {}
        }
    } else if code == "yp"@ {
        reveal_strlit("yearly_point");
        assert forall|i: int| 0 <= i < "yearly_point"@.len() implies "yearly_point"@[i] != '-' by {
            if i == 0 {} else if i == 1 {} else if i == 2 {} else if i == 3 {} else if i == 4 {} else if i == 5 {} else if i == 6 {} else if i == 7 {} else if i == 8 {} else if i == 9 {} else if i == 10 {} else if i == 11 {}
        }
    } else if code == "f"@ {
        reveal_strlit("fav_novel_cnt");
        assert forall|i: int| 0 <= i < "fav_novel_cnt"@.len() implies "fav_novel_cnt"@[i] != '-' by {
            if i == 0 {} else if i == 1 {} else if i == 2 {} else if i == 3 {} else if i == 4 {} else if i == 5 {} else if i == 6 {} else if i == 7 {} else if i == 8 {} else if i == 9 {} else if i == 10 {} else if i == 11 {} else if i == 12 {}
        }
    } else if code == "im"@ {
        reveal_strlit("impression_cnt");
        assert forall|i: int| 0 <= i < "impression_cnt"@.len() implies "impression_cnt"@[i] != '-' by {
            if i == 0 {} else if i == 1 {} else if i == 2 {} else if i == 3 {} else if i == 4 {} else if i == 5 {} else if i == 6 {} else if i == 7 {} else if i == 8 {} else if i == 9 {} else if i == 10 {} else if i == 11 {} else if i == 12 {} else if i == 13 {}
        }
    } else if code == "r"@ {
        reveal_strlit("review_cnt");
        assert forall|i: int| 0 <= i < "review_cnt"@.len() implies "review_cnt"@[i] != '-' by {
            if i == 0 {} else if i == 1 {} else if i == 2 {} else if i == 3 {} else if i == 4 {} else if i == 5 {} else if i == 6 {} else if i == 7 {} else if i == 8 {} else if i == 9 {}
        }
    } else if code == "a"@ {
        reveal_strlit("all_point");
        assert forall|i: int| 0 <= i < "all_point"@.len() implies "all_point"@[i] != '-' by {
            if i == 0 {} else if i == 1 {} else if i == 2 {} else if i == 3 {} else if i == 4 {} else if i == 5 {} else if i == 6 {} else if i == 7 {} else if i == 8 {}
        }
    } else if code == "ah"@ {
        reveal_strlit("all_hyoka_cnt");
        assert forall|i: int| 0 <= i < "all_hyoka_cnt"@.len() implies "all_hyoka_cnt"@[i] != '-' by {
            if i == 0 {} else if i == 1 {} else if i == 2 {} else if i == 3 {} else if i == 4 {} else if i == 5 {} else if i == 6 {} else if i == 7 {} else if i == 8 {} else if i == 9 {} else if i == 10 {} else if i == 11 {} else if i == 12 {}
        }
    } else if code == "sa"@ {
        reveal_strlit("sasie_cnt");
        assert forall|i: int| 0 <= i < "sasie_cnt"@.len() implies "sasie_cnt"@[i] != '-' by {
            if i == 0 {} else if i == 1 {} else if i == 2 {} else if i == 3 {} else if i == 4 {} else if i == 5 {} else if i == 6 {} else if i == 7 {} else if i == 8 {}
        }
    } else if code == "ka"@ {
        reveal_strlit("kaiwaritu");
        assert forall|i: int| 0 <= i < "kaiwaritu"@.len() implies "kaiwaritu"@[i] != '-' by {
            if i == 0 {} else if i == 1 {} else if i == 2 {} else if i == 3 {} else if i == 4 {} else if i == 5 {} else if i == 6 {} else if i == 7 {} else if i == 8 {}
        }
    } else if code == "nu"@ {
        reveal_strlit("novelupdated_at");
        assert forall|i: int| 0 <= i < "novelupdated_at"@.len() implies "novelupdated_at"@[i] != '-' by {
            if i == 0 {} else if i == 1 {} else if i == 2 {} else if i == 3 {} else if i == 4 {} else if i == 5 {} else if i == 6 {} else if i == 7 {} else if i == 8 {} else if i == 9 {} else if i == 10 {} else if i == 11 {} else if i == 12 {} else if i == 13 {} else if i == 14 {}
        }
    } else if code == "ua"@ {
        reveal_strlit("updated_at");
        assert forall|i: int| 0 <= i < "updated_at"@.len() implies "updated_at"@[i] != '-' by {
            if i == 0 {} else if i == 1 {} else if i == 2 {} else if i == 3 {} else if i == 4 {} else if i == 5 {} else if i == 6 {} else if i == 7 {} else if i == 8 {} else if i == 9 {}
        }
    } else if code == "nt"@ {
        reveal_strlit("novel_type");
        assert forall|i: int| 0 <= i < "novel_type"@.len() implies "novel_type"@[i] != '-' by {
            if i == 0 {} else if i == 1 {} else if i == 2 {} else if i == 3 {} else if i == 4 {} else if i == 5 {} else if i == 6 {} else if i == 7 {} else if i == 8 {} else if i == 9 {}
        }
    } else if code == "e"@ {
        reveal_strlit("end");
        assert forall|i: int| 0 <= i < "end"@.len() implies "end"@[i] != '-' by {
            if i == 0 {} else if i == 1 {} else if i == 2 {}
        }
    } else if code == "ga"@ {
        reveal_strlit("general_all_no");
        assert forall|i: int| 0 <= i < "general_all_no"@.len() implies "general_all_no"@[i] != '-' by {
            if i == 0 {} else if i == 1 {} else if i == 2 {} else if i == 3 {} else if i == 4 {} else if i == 5 {} else if i == 6 {} else if i == 7 {} else if i == 8 {} else if i == 9 {} else if i == 10 {} else if i == 11 {} else if i == 12 {} else if i == 13 {}
        }
    } else if code == "l"@ {
        reveal_strlit("length");
        assert forall|i: int| 0 <= i < "length"@.len() implies "length"@[i] != '-' by {
            if i == 0 {} else if i == 1 {} else if i == 2 {} else if i == 3 {} else if i == 4 {} else if i == 5 {}
        }
    } else if code == "ti"@ {
        reveal_strlit("time");
        assert forall|i: int| 0 <= i < "time"@.len() implies "time"@[i] != '-' by {
            if i == 0 {} else if i == 1 {} else if i == 2 {} else if i == 3 {}
        }
    } else if code == "i"@ {
        reveal_strlit("isstop");
        assert forall|i: int| 0 <= i < "isstop"@.len() implies "isstop"@[i] != '-' by {
            if i == 0 {} else if i == 1 {} else if i == 2 {} else if i == 3 {} else if i == 4 {} else if i == 5 {}
        }
    } else if code == "ir"@ {
        reveal_strlit("isr15");
        assert forall|i: int| 0 <= i < "isr15"@.len() implies "isr15"@[i] != '-' by {
            if i == 0 {} else if i == 1 {} else if i == 2 {} else if i == 3 {} else if i == 4 {}
        }
    } else if code == "ibl"@ {
        reveal_strlit("isbl");
        assert forall|i: int| 0 <= i < "isbl"@.len() implies "isbl"@[i] != '-' by {
            if i == 0 {} else if i == 1 {} else if i == 2 {} else if i == 3 {}
        }
    } else if code == "igl"@ {
        reveal_strlit("isgl");
        assert forall|i: int| 0 <= i < "isgl"@.len() implies "isgl"@[i] != '-' by {
            if i == 0 {} else if i == 1 {} else if i == 2 {} else if i == 3 {}
        }
    } else if code == "izk"@ {
        reveal_strlit("iszankoku");
        assert forall|i: int| 0 <= i < "iszankoku"@.len() implies "iszankoku"@[i] != '-' by {
            if i == 0 {} else if i == 1 {} else if i == 2 {} else if i == 3 {} else if i == 4 {} else if i == 5 {} else if i == 6 {} else if i == 7 {} else if i == 8 {}
        }
    } else if code == "its"@ {
        reveal_strlit("istensei");
        assert forall|i: int| 0 <= i < "istensei"@.len() implies "istensei"@[i] != '-' by {
            if i == 0 {} else if i == 1 {} else if i == 2 {} else if i == 3 {} else if i == 4 {} else if i == 5 {} else if i == 6 {} else if i == 7 {}
        }
    } else if code == "iti"@ {
        reveal_strlit("istenni");
        assert forall|i: int| 0 <= i < "istenni"@.len() implies "istenni"@[i] != '-' by {
            if i == 0 {} else if i == 1 {} else if i == 2 {} else if i == 3 {} else if i == 4 {} else if i == 5 {} else if i == 6 {}
        }
    } else if code == "gf"@ {
        reveal_strlit("general_firstup");
        assert forall|i: int| 0 <= i < "general_firstup"@.len() implies "general_firstup"@[i] != '-' by {
            if i == 0 {} else if i == 1 {} else if i == 2 {} else if i == 3 {} else if i == 4 {} else if i == 5 {} else if i == 6 {} else if i == 7 {} else if i == 8 {} else if i == 9 {} else if i == 10 {} else if i == 11 {} else if i == 12 {} else if i == 13 {} else if i == 14 {}
        }
    } else if code == "gl"@ {
        reveal_strlit("general_lastup");
        assert forall|i: int| 0 <= i < "general_lastup"@.len() implies "general_lastup"@[i] != '-' by {
            if i == 0 {} else if i == 1 {} else if i == 2 {} else if i == 3 {} else if i == 4 {} else if i == 5 {} else if i == 6 {} else if i == 7 {} else if i == 8 {} else if i == 9 {} else if i == 10 {} else if i == 11 {} else if i == 12 {} else if i == 13 {}
        }
    } else if code == "k"@ {
        reveal_strlit("keyword");
        assert forall|i: int| 0 <= i < "keyword"@.len() implies "keyword"@[i] != '-' by {
            if i == 0 {} else if i == 1 {} else if i == 2 {} else if i == 3 {} else if i == 4 {} else if i == 5 {} else if i == 6 {}
        }
    } else if code == "gs"@ {
        reveal_strlit("gensaku");
        assert forall|i: int| 0 <= i < "gensaku"@.len() implies "gensaku"@[i] != '-' by {
            if i == 0 {} else if i == 1 {} else if i == 2 {} else if i == 3 {} else if i == 4 {} else if i == 5 {} else if i == 6 {}
        }
    } else if code == "wu"@ {
        reveal_strlit("weekly_unique");
        assert forall|i: int| 0 <= i < "weekly_unique"@.len() implies "weekly_unique"@[i] != '-' by {
            if i == 0 {} else if i == 1 {} else if i == 2 {} else if i == 3 {} else if i == 4 {} else if i == 5 {} else if i == 6 {} else if i == 7 {} else if i == 8 {} else if i == 9 {} else if i == 10 {} else if i == 11 {} else if i == 12 {}
        }
    }
}

/// Splitting a remapped selector at `-` gives each code's field name, in
/// order and one for one.
pub proof fn lemma_novel_selector_parts(s: Seq<char>)
    ensures
        split_dash(novel_selector(s)) == novel_field_names(split_dash(s)),
        split_dash(novel_selector(s)).len() == split_dash(s).len(),
{
    let parts = split_dash(s);
    lemma_split_nonempty(s);
    lemma_split_dash_free(s);
    let names = novel_field_names(parts);
    assert forall|k: int| 0 <= k < names.len() implies dash_free(#[trigger] names[k]) by {
        assert(dash_free(parts[k]));
        lemma_novel_field_name_dash_free(parts[k]);
    }
    lemma_split_join(names);
}

/// The query with field selector `a` and the one with `b` have the same
/// length and differ only at the position of the `of` pair: the remap
/// renames that one value and adds or drops nothing.
pub proof fn lemma_novel_of_renamed(r: NarouRequest, a: Seq<char>, b: Seq<char>)
    ensures
        ({
            let j = (Seq::empty() + num_pair("gzip"@, widen_u8(r.gzip)) + text_pair("out"@, opt_view(r.out))).len() as int;
            let qa = r.query_with(Some(a));
            let qb = r.query_with(Some(b));
            &&& qa.len() == qb.len()
            &&& qa[j] == ("of"@, a)
            &&& qb[j] == ("of"@, b)
            &&& forall|i: int| 0 <= i < qa.len() && i != j ==> qa[i] == qb[i]
        }),
{
    let pre = Seq::empty() + num_pair("gzip"@, widen_u8(r.gzip)) + text_pair("out"@, opt_view(r.out));
    let j = pre.len() as int;
    let mut ua = pre + text_pair("of"@, Some(a));
    let mut ub = pre + text_pair("of"@, Some(b));
    assert(ua[j] == ("of"@, a) && ub[j] == ("of"@, b));
    assert(agree_but(ua, ub, j)) by {
        reveal(agree_but);
        assert forall|i: int| 0 <= i < ua.len() && i != j implies ua[i] == ub[i] by {}
    }
    lemma_agree_but_one(ua, ub, num_pair("lim"@, widen_u32(r.lim)), j);
    ua = ua + num_pair("lim"@, widen_u32(r.lim));
    ub = ub + num_pair("lim"@, widen_u32(r.lim));
    lemma_agree_but_one(ua, ub, num_pair("st"@, widen_u32(r.st)), j);
    ua = ua + num_pair("st"@, widen_u32(r.st));
    ub = ub + num_pair("st"@, widen_u32(r.st));
    lemma_agree_but_one(ua, ub, text_pair("order"@, opt_view(r.order)), j);
    ua = ua + text_pair("order"@, opt_view(r.order));
    ub = ub + text_pair("order"@, opt_view(r.order));
    lemma_agree_but_one(ua, ub, text_pair("word"@, opt_view(r.word)), j);
    ua = ua + text_pair("word"@, opt_view(r.word));
    ub = ub + text_pair("word"@, opt_view(r.word));
    lemma_agree_but_one(ua, ub, text_pair("notword"@, opt_view(r.notword)), j);
    ua = ua + text_pair("notword"@, opt_view(r.notword));
    ub = ub + text_pair("notword"@, opt_view(r.notword));
    lemma_agree_but_one(ua, ub, num_pair("title"@, widen_u8(r.title)), j);
    ua = ua + num_pair("title"@, widen_u8(r.title));
    ub = ub + num_pair("title"@, widen_u8(r.title));
    lemma_agree_but_one(ua, ub, num_pair("ex"@, widen_u8(r.ex)), j);
    ua = ua + num_pair("ex"@, widen_u8(r.ex));
    ub = ub + num_pair("ex"@, widen_u8(r.ex));
    lemma_agree_but_one(ua, ub, num_pair("keyword"@, widen_u8(r.keyword)), j);
    ua = ua + num_pair("keyword"@, widen_u8(r.keyword));
    ub = ub + num_pair("keyword"@, widen_u8(r.keyword));
    lemma_agree_but_one(ua, ub, num_pair("wname"@, widen_u8(r.wname)), j);
    ua = ua + num_pair("wname"@, widen_u8(r.wname));
    ub = ub + num_pair("wname"@, widen_u8(r.wname));
    lemma_agree_but_one(ua, ub, text_pair("biggenre"@, opt_view(r.biggenre)), j);
    ua = ua + text_pair("biggenre"@, opt_view(r.biggenre));
    ub = ub + text_pair("biggenre"@, opt_view(r.biggenre));
    lemma_agree_but_one(ua, ub, text_pair("notbiggenre"@, opt_view(r.notbiggenre)), j);
    ua = ua + text_pair("notbiggenre"@, opt_view(r.notbiggenre));
    ub = ub + text_pair("notbiggenre"@, opt_view(r.notbiggenre));
    lemma_agree_but_one(ua, ub, text_pair("genre"@, opt_view(r.genre)), j);
    ua = ua + text_pair("genre"@, opt_view(r.genre));
    ub = ub + text_pair("genre"@, opt_view(r.genre));
    lemma_agree_but_one(ua, ub, text_pair("notgenre"@, opt_view(r.notgenre)), j);
    ua = ua + text_pair("notgenre"@, opt_view(r.notgenre));
    ub = ub + text_pair("notgenre"@, opt_view(r.notgenre));
    lemma_agree_but_one(ua, ub, text_pair("userid"@, opt_view(r.userid)), j);
    ua = ua + text_pair("userid"@, opt_view(r.userid));
    ub = ub + text_pair("userid"@, opt_view(r.userid));
    lemma_agree_but_one(ua, ub, num_pair("isr15"@, widen_u8(r.isr15)), j);
    ua = ua + num_pair("isr15"@, widen_u8(r.isr15));
    ub = ub + num_pair("isr15"@, widen_u8(r.isr15));
    lemma_agree_but_one(ua, ub, num_pair("isbl"@, widen_u8(r.isbl)), j);
    ua = ua + num_pair("isbl"@, widen_u8(r.isbl));
    ub = ub + num_pair("isbl"@, widen_u8(r.isbl));
    lemma_agree_but_one(ua, ub, num_pair("isgl"@, widen_u8(r.isgl)), j);
    ua = ua + num_pair("isgl"@, widen_u8(r.isgl));
    ub = ub + num_pair("isgl"@, widen_u8(r.isgl));
    lemma_agree_but_one(ua, ub, num_pair("iszankoku"@, widen_u8(r.iszankoku)), j);
    ua = ua + num_pair("iszankoku"@, widen_u8(r.iszankoku));
    ub = ub + num_pair("iszankoku"@, widen_u8(r.iszankoku));
    lemma_agree_but_one(ua, ub, num_pair("istensei"@, widen_u8(r.istensei)), j);
    ua = ua + num_pair("istensei"@, widen_u8(r.istensei));
    ub = ub + num_pair("istensei"@, widen_u8(r.istensei));
    lemma_agree_but_one(ua, ub, num_pair("istenni"@, widen_u8(r.istenni)), j);
    ua = ua + num_pair("istenni"@, widen_u8(r.istenni));
    ub = ub + num_pair("istenni"@, widen_u8(r.istenni));
    lemma_agree_but_one(ua, ub, num_pair("istt"@, widen_u8(r.istt)), j);
    ua = ua + num_pair("istt"@, widen_u8(r.istt));
    ub = ub + num_pair("istt"@, widen_u8(r.istt));
    lemma_agree_but_one(ua, ub, num_pair("notr15"@, widen_u8(r.notr15)), j);
    ua = ua + num_pair("notr15"@, widen_u8(r.notr15));
    ub = ub + num_pair("notr15"@, widen_u8(r.notr15));
    lemma_agree_but_one(ua, ub, num_pair("notbl"@, widen_u8(r.notbl)), j);
    ua = ua + num_pair("notbl"@, widen_u8(r.notbl));
    ub = ub + num_pair("notbl"@, widen_u8(r.notbl));
    lemma_agree_but_one(ua, ub, num_pair("notgl"@, widen_u8(r.notgl)), j);
    ua = ua + num_pair("notgl"@, widen_u8(r.notgl));
    ub = ub + num_pair("notgl"@, widen_u8(r.notgl));
    lemma_agree_but_one(ua, ub, num_pair("notzankoku"@, widen_u8(r.notzankoku)), j);
    ua = ua + num_pair("notzankoku"@, widen_u8(r.notzankoku));
    ub = ub + num_pair("notzankoku"@, widen_u8(r.notzankoku));
    lemma_agree_but_one(ua, ub, num_pair("nottensei"@, widen_u8(r.nottensei)), j);
    ua = ua + num_pair("nottensei"@, widen_u8(r.nottensei));
    ub = ub + num_pair("nottensei"@, widen_u8(r.nottensei));
    lemma_agree_but_one(ua, ub, num_pair("nottenni"@, widen_u8(r.nottenni)), j);
    ua = ua + num_pair("nottenni"@, widen_u8(r.nottenni));
    ub = ub + num_pair("nottenni"@, widen_u8(r.nottenni));
    lemma_agree_but_one(ua, ub, num_pair("minlen"@, widen_u32(r.minlen)), j);
    ua = ua + num_pair("minlen"@, widen_u32(r.minlen));
    ub = ub + num_pair("minlen"@, widen_u32(r.minlen));
    lemma_agree_but_one(ua, ub, num_pair("maxlen"@, widen_u32(r.maxlen)), j);
    ua = ua + num_pair("maxlen"@, widen_u32(r.maxlen));
    ub = ub + num_pair("maxlen"@, widen_u32(r.maxlen));
    lemma_agree_but_one(ua, ub, text_pair("length"@, opt_view(r.length)), j);
    ua = ua + text_pair("length"@, opt_view(r.length));
    ub = ub + text_pair("length"@, opt_view(r.length));
    lemma_agree_but_one(ua, ub, text_pair("kaiwaritu"@, opt_view(r.kaiwaritu)), j);
    ua = ua + text_pair("kaiwaritu"@, opt_view(r.kaiwaritu));
    ub = ub + text_pair("kaiwaritu"@, opt_view(r.kaiwaritu));
    lemma_agree_but_one(ua, ub, text_pair("sasie"@, opt_view(r.sasie)), j);
    ua = ua + text_pair("sasie"@, opt_view(r.sasie));
    ub = ub + text_pair("sasie"@, opt_view(r.sasie));
    lemma_agree_but_one(ua, ub, num_pair("mintime"@, widen_u32(r.mintime)), j);
    ua = ua + num_pair("mintime"@, widen_u32(r.mintime));
    ub = ub + num_pair("mintime"@, widen_u32(r.mintime));
    lemma_agree_but_one(ua, ub, num_pair("maxtime"@, widen_u32(r.maxtime)), j);
    ua = ua + num_pair("maxtime"@, widen_u32(r.maxtime));
    ub = ub + num_pair("maxtime"@, widen_u32(r.maxtime));
    lemma_agree_but_one(ua, ub, text_pair("time"@, opt_view(r.time)), j);
    ua = ua + text_pair("time"@, opt_view(r.time));
    ub = ub + text_pair("time"@, opt_view(r.time));
    lemma_agree_but_one(ua, ub, text_pair("ncode"@, opt_view(r.ncode)), j);
    ua = ua + text_pair("ncode"@, opt_view(r.ncode));
    ub = ub + text_pair("ncode"@, opt_view(r.ncode));
    lemma_agree_but_one(ua, ub, text_pair("type"@, opt_view(r.type_filter)), j);
    ua = ua + text_pair("type"@, opt_view(r.type_filter));
    ub = ub + text_pair("type"@, opt_view(r.type_filter));
    lemma_agree_but_one(ua, ub, text_pair("buntai"@, opt_view(r.buntai)), j);
    ua = ua + text_pair("buntai"@, opt_view(r.buntai));
    ub = ub + text_pair("buntai"@, opt_view(r.buntai));
    lemma_agree_but_one(ua, ub, num_pair("stop"@, widen_u8(r.stop)), j);
    ua = ua + num_pair("stop"@, widen_u8(r.stop));
    ub = ub + num_pair("stop"@, widen_u8(r.stop));
    lemma_agree_but_one(ua, ub, text_pair("lastup"@, opt_view(r.lastup)), j);
    ua = ua + text_pair("lastup"@, opt_view(r.lastup));
    ub = ub + text_pair("lastup"@, opt_view(r.lastup));
    lemma_agree_but_one(ua, ub, text_pair("lastupdate"@, opt_view(r.lastupdate)), j);
    ua = ua + text_pair("lastupdate"@, opt_view(r.lastupdate));
    ub = ub + text_pair("lastupdate"@, opt_view(r.lastupdate));
    lemma_agree_but_one(ua, ub, num_pair("ispickup"@, widen_u8(r.ispickup)), j);
    ua = ua + num_pair("ispickup"@, widen_u8(r.ispickup));
    ub = ub + num_pair("ispickup"@, widen_u8(r.ispickup));
    lemma_agree_but_one(ua, ub, num_pair("libtype"@, widen_u8(r.libtype)), j);
    ua = ua + num_pair("libtype"@, widen_u8(r.libtype));
    ub = ub + num_pair("libtype"@, widen_u8(r.libtype));
    lemma_agree_but_one(ua, ub, text_pair("opt"@, opt_view(r.opt)), j);
    ua = ua + text_pair("opt"@, opt_view(r.opt));
    ub = ub + text_pair("opt"@, opt_view(r.opt));
    lemma_agree_but_one(ua, ub, text_pair("callback"@, opt_view(r.callback)), j);
    ua = ua + text_pair("callback"@, opt_view(r.callback));
    ub = ub + text_pair("callback"@, opt_view(r.callback));
    lemma_agree_but_one(ua, ub, num_pair("updatetype"@, widen_u8(r.updatetype)), j);
    ua = ua + num_pair("updatetype"@, widen_u8(r.updatetype));
    ub = ub + num_pair("updatetype"@, widen_u8(r.updatetype));
    assert(ua == r.query_with(Some(a)));
    assert(ub == r.query_with(Some(b)));
    reveal(agree_but);
}

} // verus!
