use vstd::prelude::*;
use crate::api::common::body::{body_doc, decode_search_answer, fault_error, read_body, search_answer};
use crate::api::common::client::{is_success, status_failure};
use crate::api::common::error::ApiError;
use crate::api::common::request::{gzip_on, gzip_requested};
use crate::api::common::params::{
    num_pair, opt_view, pairs_view, push_text, push_u32, push_u8, text_pair, widen_u32, widen_u8,
};

use crate::api::common::tree::{
    Node, opt_u32, req_text, req_u32, req_u8, required, text_field, u32_field, u8_field,
};
use crate::api::common::response::{key_names, Entity};

verus! {

/// A query of the adult-site novel search API, first generation.
#[derive(Debug, Clone)]
pub struct NocturneNovelApiRequest {
    pub gzip: Option<u8>,
    pub out: Option<String>,
    pub of: Option<String>,
    pub lim: Option<u32>,
    pub st: Option<u32>,
    pub order: Option<String>,
    pub libtype: Option<u8>,
    pub updatetype: Option<u8>,
    pub word: Option<String>,
    pub notword: Option<String>,
    pub title: Option<u8>,
    pub ex: Option<u8>,
    pub keyword: Option<u8>,
    pub wname: Option<u8>,
    pub nocgenre: Option<String>,
    pub notnocgenre: Option<String>,
    pub xid: Option<String>,
    pub isbl: Option<u8>,
    pub isgl: Option<u8>,
    pub iszankoku: Option<u8>,
    pub istensei: Option<u8>,
    pub istenni: Option<u8>,
    pub istt: Option<u8>,
    pub notbl: Option<u8>,
    pub notgl: Option<u8>,
    pub notzankoku: Option<u8>,
    pub nottensei: Option<u8>,
    pub nottenni: Option<u8>,
    pub minlen: Option<u32>,
    pub maxlen: Option<u32>,
    pub length: Option<String>,
    pub kaiwaritu: Option<String>,
    pub sasie: Option<String>,
    pub mintime: Option<u32>,
    pub maxtime: Option<u32>,
    pub time: Option<String>,
    pub ncode: Option<String>,
    pub type_filter: Option<String>,
    pub buntai: Option<String>,
    pub stop: Option<u8>,
    pub lastup: Option<String>,
    pub lastupdate: Option<String>,
    pub ispickup: Option<u8>,
    pub opt: Option<String>,
    pub callback: Option<String>,
}

impl NocturneNovelApiRequest {
    /// The query parameters, in the order the search sends them.
    pub open spec fn query_spec(&self) -> Seq<(Seq<char>, Seq<char>)> {
        Seq::empty()
            + num_pair("gzip"@, widen_u8(self.gzip))
            + text_pair("out"@, opt_view(self.out))
            + text_pair("of"@, opt_view(self.of))
            + num_pair("lim"@, widen_u32(self.lim))
            + num_pair("st"@, widen_u32(self.st))
            + text_pair("order"@, opt_view(self.order))
            + num_pair("libtype"@, widen_u8(self.libtype))
            + num_pair("updatetype"@, widen_u8(self.updatetype))
            + text_pair("word"@, opt_view(self.word))
            + text_pair("notword"@, opt_view(self.notword))
            + num_pair("title"@, widen_u8(self.title))
            + num_pair("ex"@, widen_u8(self.ex))
            + num_pair("keyword"@, widen_u8(self.keyword))
            + num_pair("wname"@, widen_u8(self.wname))
            + text_pair("nocgenre"@, opt_view(self.nocgenre))
            + text_pair("notnocgenre"@, opt_view(self.notnocgenre))
            + text_pair("xid"@, opt_view(self.xid))
            + num_pair("isbl"@, widen_u8(self.isbl))
            + num_pair("isgl"@, widen_u8(self.isgl))
            + num_pair("iszankoku"@, widen_u8(self.iszankoku))
            + num_pair("istensei"@, widen_u8(self.istensei))
            + num_pair("istenni"@, widen_u8(self.istenni))
            + num_pair("istt"@, widen_u8(self.istt))
            + num_pair("notbl"@, widen_u8(self.notbl))
            + num_pair("notgl"@, widen_u8(self.notgl))
            + num_pair("notzankoku"@, widen_u8(self.notzankoku))
            + num_pair("nottensei"@, widen_u8(self.nottensei))
            + num_pair("nottenni"@, widen_u8(self.nottenni))
            + num_pair("minlen"@, widen_u32(self.minlen))
            + num_pair("maxlen"@, widen_u32(self.maxlen))
            + text_pair("length"@, opt_view(self.length))
            + text_pair("kaiwaritu"@, opt_view(self.kaiwaritu))
            + text_pair("sasie"@, opt_view(self.sasie))
            + num_pair("mintime"@, widen_u32(self.mintime))
            + num_pair("maxtime"@, widen_u32(self.maxtime))
            + text_pair("time"@, opt_view(self.time))
            + text_pair("ncode"@, opt_view(self.ncode))
            + text_pair("type"@, opt_view(self.type_filter))
            + text_pair("buntai"@, opt_view(self.buntai))
            + num_pair("stop"@, widen_u8(self.stop))
            + text_pair("lastup"@, opt_view(self.lastup))
            + text_pair("lastupdate"@, opt_view(self.lastupdate))
            + num_pair("ispickup"@, widen_u8(self.ispickup))
            + text_pair("opt"@, opt_view(self.opt))
            + text_pair("callback"@, opt_view(self.callback))
    }

    pub fn query_params(&self) -> (r: Vec<(String, String)>)
        ensures
            pairs_view(r@) == self.query_spec(),
    {
        let mut params: Vec<(String, String)> = Vec::new();
        assert(pairs_view(params@) =~= Seq::empty());
        push_u8(&mut params, "gzip", self.gzip);
        push_text(&mut params, "out", &self.out);
        push_text(&mut params, "of", &self.of);
        push_u32(&mut params, "lim", self.lim);
        push_u32(&mut params, "st", self.st);
        push_text(&mut params, "order", &self.order);
        push_u8(&mut params, "libtype", self.libtype);
        push_u8(&mut params, "updatetype", self.updatetype);
        push_text(&mut params, "word", &self.word);
        push_text(&mut params, "notword", &self.notword);
        push_u8(&mut params, "title", self.title);
        push_u8(&mut params, "ex", self.ex);
        push_u8(&mut params, "keyword", self.keyword);
        push_u8(&mut params, "wname", self.wname);
        push_text(&mut params, "nocgenre", &self.nocgenre);
        push_text(&mut params, "notnocgenre", &self.notnocgenre);
        push_text(&mut params, "xid", &self.xid);
        push_u8(&mut params, "isbl", self.isbl);
        push_u8(&mut params, "isgl", self.isgl);
        push_u8(&mut params, "iszankoku", self.iszankoku);
        push_u8(&mut params, "istensei", self.istensei);
        push_u8(&mut params, "istenni", self.istenni);
        push_u8(&mut params, "istt", self.istt);
        push_u8(&mut params, "notbl", self.notbl);
        push_u8(&mut params, "notgl", self.notgl);
        push_u8(&mut params, "notzankoku", self.notzankoku);
        push_u8(&mut params, "nottensei", self.nottensei);
        push_u8(&mut params, "nottenni", self.nottenni);
        push_u32(&mut params, "minlen", self.minlen);
        push_u32(&mut params, "maxlen", self.maxlen);
        push_text(&mut params, "length", &self.length);
        push_text(&mut params, "kaiwaritu", &self.kaiwaritu);
        push_text(&mut params, "sasie", &self.sasie);
        push_u32(&mut params, "mintime", self.mintime);
        push_u32(&mut params, "maxtime", self.maxtime);
        push_text(&mut params, "time", &self.time);
        push_text(&mut params, "ncode", &self.ncode);
        push_text(&mut params, "type", &self.type_filter);
        push_text(&mut params, "buntai", &self.buntai);
        push_u8(&mut params, "stop", self.stop);
        push_text(&mut params, "lastup", &self.lastup);
        push_text(&mut params, "lastupdate", &self.lastupdate);
        push_u8(&mut params, "ispickup", self.ispickup);
        push_text(&mut params, "opt", &self.opt);
        push_text(&mut params, "callback", &self.callback);
        params
    }
}

impl Default for NocturneNovelApiRequest {
    /// JSON output, twenty results, nothing else set.
    fn default() -> (r: Self)
        ensures
            r.gzip is None,
            r.out is Some && r.out->0@ == "json"@,
            r.of is None,
            r.lim == Some(20u32),
            r.st is None,
            r.order is None,
            r.libtype is None,
            r.updatetype is None,
            r.word is None,
            r.notword is None,
            r.title is None,
            r.ex is None,
            r.keyword is None,
            r.wname is None,
            r.nocgenre is None,
            r.notnocgenre is None,
            r.xid is None,
            r.isbl is None,
            r.isgl is None,
            r.iszankoku is None,
            r.istensei is None,
            r.istenni is None,
            r.istt is None,
            r.notbl is None,
            r.notgl is None,
            r.notzankoku is None,
            r.nottensei is None,
            r.nottenni is None,
            r.minlen is None,
            r.maxlen is None,
            r.length is None,
            r.kaiwaritu is None,
            r.sasie is None,
            r.mintime is None,
            r.maxtime is None,
            r.time is None,
            r.ncode is None,
            r.type_filter is None,
            r.buntai is None,
            r.stop is None,
            r.lastup is None,
            r.lastupdate is None,
            r.ispickup is None,
            r.opt is None,
            r.callback is None,
    {
        Self {
            gzip: None,
            out: Some("json".to_string()),
            of: None,
            lim: Some(20),
            st: None,
            order: None,
            libtype: None,
            updatetype: None,
            word: None,
            notword: None,
            title: None,
            ex: None,
            keyword: None,
            wname: None,
            nocgenre: None,
            notnocgenre: None,
            xid: None,
            isbl: None,
            isgl: None,
            iszankoku: None,
            istensei: None,
            istenni: None,
            istt: None,
            notbl: None,
            notgl: None,
            notzankoku: None,
            nottensei: None,
            nottenni: None,
            minlen: None,
            maxlen: None,
            length: None,
            kaiwaritu: None,
            sasie: None,
            mintime: None,
            maxtime: None,
            time: None,
            ncode: None,
            type_filter: None,
            buntai: None,
            stop: None,
            lastup: None,
            lastupdate: None,
            ispickup: None,
            opt: None,
            callback: None,
        }
    }
}

/// One novel record, every field required.
#[derive(Debug, Clone, PartialEq)]
pub struct NocturneNovelInfo {
    pub title: String,
    pub ncode: String,
    pub writer: String,
    pub story: String,
    pub nocgenre: u8,
    pub gensaku: String,
    pub keyword: String,
    pub general_firstup: String,
    pub general_lastup: String,
    pub novel_type: u8,
    pub end: u8,
    pub general_all_no: u32,
    pub length: u32,
    pub time: u32,
    pub isstop: u8,
    pub isbl: u8,
    pub isgl: u8,
    pub iszankoku: u8,
    pub istensei: u8,
    pub istenni: u8,
    pub global_point: u32,
    pub daily_point: u32,
    pub weekly_point: u32,
    pub monthly_point: u32,
    pub quarter_point: u32,
    pub yearly_point: u32,
    pub fav_novel_cnt: u32,
    pub impression_cnt: u32,
    pub review_cnt: u32,
    pub all_point: u32,
    pub all_hyoka_cnt: u32,
    pub sasie_cnt: u32,
    pub kaiwaritu: u8,
    pub novelupdated_at: String,
    pub updated_at: String,
    pub weekly_unique: Option<u32>,
}

impl Entity for NocturneNovelInfo {
    open spec fn shape() -> Seq<Seq<char>> {
        seq!["ncode"@]
    }

    fn shape_keys() -> (r: Vec<&'static str>) {
        let keys: Vec<&'static str> = vec!["ncode"];
        assert(key_names(keys@) =~= seq!["ncode"@]);
        keys
    }

    /// A map whose entries fit the field types; absent and null optional
    /// fields read as `None`, unknown entries are ignored.
    open spec fn decoded(n: Node) -> Option<Self> {
        match n {
            Node::Dict(e) => {
                let title = required(text_field(e@, "title"@));
                let ncode = required(text_field(e@, "ncode"@));
                let writer = required(text_field(e@, "writer"@));
                let story = required(text_field(e@, "story"@));
                let nocgenre = required(u8_field(e@, "nocgenre"@));
                let gensaku = required(text_field(e@, "gensaku"@));
                let keyword = required(text_field(e@, "keyword"@));
                let general_firstup = required(text_field(e@, "general_firstup"@));
                let general_lastup = required(text_field(e@, "general_lastup"@));
                let novel_type = required(u8_field(e@, "novel_type"@));
                let end = required(u8_field(e@, "end"@));
                let general_all_no = required(u32_field(e@, "general_all_no"@));
                let length = required(u32_field(e@, "length"@));
                let time = required(u32_field(e@, "time"@));
                let isstop = required(u8_field(e@, "isstop"@));
                let isbl = required(u8_field(e@, "isbl"@));
                let isgl = required(u8_field(e@, "isgl"@));
                let iszankoku = required(u8_field(e@, "iszankoku"@));
                let istensei = required(u8_field(e@, "istensei"@));
                let istenni = required(u8_field(e@, "istenni"@));
                let global_point = required(u32_field(e@, "global_point"@));
                let daily_point = required(u32_field(e@, "daily_point"@));
                let weekly_point = required(u32_field(e@, "weekly_point"@));
                let monthly_point = required(u32_field(e@, "monthly_point"@));
                let quarter_point = required(u32_field(e@, "quarter_point"@));
                let yearly_point = required(u32_field(e@, "yearly_point"@));
                let fav_novel_cnt = required(u32_field(e@, "fav_novel_cnt"@));
                let impression_cnt = required(u32_field(e@, "impression_cnt"@));
                let review_cnt = required(u32_field(e@, "review_cnt"@));
                let all_point = required(u32_field(e@, "all_point"@));
                let all_hyoka_cnt = required(u32_field(e@, "all_hyoka_cnt"@));
                let sasie_cnt = required(u32_field(e@, "sasie_cnt"@));
                let kaiwaritu = required(u8_field(e@, "kaiwaritu"@));
                let novelupdated_at = required(text_field(e@, "novelupdated_at"@));
                let updated_at = required(text_field(e@, "updated_at"@));
                let weekly_unique = u32_field(e@, "weekly_unique"@);
                if title is Some
                    && ncode is Some
                    && writer is Some
                    && story is Some
                    && nocgenre is Some
                    && gensaku is Some
                    && keyword is Some
                    && general_firstup is Some
                    && general_lastup is Some
                    && novel_type is Some
                    && end is Some
                    && general_all_no is Some
                    && length is Some
                    && time is Some
                    && isstop is Some
                    && isbl is Some
                    && isgl is Some
                    && iszankoku is Some
                    && istensei is Some
                    && istenni is Some
                    && global_point is Some
                    && daily_point is Some
                    && weekly_point is Some
                    && monthly_point is Some
                    && quarter_point is Some
                    && yearly_point is Some
                    && fav_novel_cnt is Some
                    && impression_cnt is Some
                    && review_cnt is Some
                    && all_point is Some
                    && all_hyoka_cnt is Some
                    && sasie_cnt is Some
                    && kaiwaritu is Some
                    && novelupdated_at is Some
                    && updated_at is Some
                    && weekly_unique is Some {
                    Some(NocturneNovelInfo {
                        title: title->0,
                        ncode: ncode->0,
                        writer: writer->0,
                        story: story->0,
                        nocgenre: nocgenre->0,
                        gensaku: gensaku->0,
                        keyword: keyword->0,
                        general_firstup: general_firstup->0,
                        general_lastup: general_lastup->0,
                        novel_type: novel_type->0,
                        end: end->0,
                        general_all_no: general_all_no->0,
                        length: length->0,
                        time: time->0,
                        isstop: isstop->0,
                        isbl: isbl->0,
                        isgl: isgl->0,
                        iszankoku: iszankoku->0,
                        istensei: istensei->0,
                        istenni: istenni->0,
                        global_point: global_point->0,
                        daily_point: daily_point->0,
                        weekly_point: weekly_point->0,
                        monthly_point: monthly_point->0,
                        quarter_point: quarter_point->0,
                        yearly_point: yearly_point->0,
                        fav_novel_cnt: fav_novel_cnt->0,
                        impression_cnt: impression_cnt->0,
                        review_cnt: review_cnt->0,
                        all_point: all_point->0,
                        all_hyoka_cnt: all_hyoka_cnt->0,
                        sasie_cnt: sasie_cnt->0,
                        kaiwaritu: kaiwaritu->0,
                        novelupdated_at: novelupdated_at->0,
                        updated_at: updated_at->0,
                        weekly_unique: weekly_unique->0,
                    })
                } else {
                    None
                }
            },
            _ => None,
        }
    }

    fn from_node(n: &Node) -> (r: Result<Self, ApiError>) {
        match n {
            Node::Dict(e) => {
                let title = req_text(e, "title")?;
                let ncode = req_text(e, "ncode")?;
                let writer = req_text(e, "writer")?;
                let story = req_text(e, "story")?;
                let nocgenre = req_u8(e, "nocgenre")?;
                let gensaku = req_text(e, "gensaku")?;
                let keyword = req_text(e, "keyword")?;
                let general_firstup = req_text(e, "general_firstup")?;
                let general_lastup = req_text(e, "general_lastup")?;
                let novel_type = req_u8(e, "novel_type")?;
                let end = req_u8(e, "end")?;
                let general_all_no = req_u32(e, "general_all_no")?;
                let length = req_u32(e, "length")?;
                let time = req_u32(e, "time")?;
                let isstop = req_u8(e, "isstop")?;
                let isbl = req_u8(e, "isbl")?;
                let isgl = req_u8(e, "isgl")?;
                let iszankoku = req_u8(e, "iszankoku")?;
                let istensei = req_u8(e, "istensei")?;
                let istenni = req_u8(e, "istenni")?;
                let global_point = req_u32(e, "global_point")?;
                let daily_point = req_u32(e, "daily_point")?;
                let weekly_point = req_u32(e, "weekly_point")?;
                let monthly_point = req_u32(e, "monthly_point")?;
                let quarter_point = req_u32(e, "quarter_point")?;
                let yearly_point = req_u32(e, "yearly_point")?;
                let fav_novel_cnt = req_u32(e, "fav_novel_cnt")?;
                let impression_cnt = req_u32(e, "impression_cnt")?;
                let review_cnt = req_u32(e, "review_cnt")?;
                let all_point = req_u32(e, "all_point")?;
                let all_hyoka_cnt = req_u32(e, "all_hyoka_cnt")?;
                let sasie_cnt = req_u32(e, "sasie_cnt")?;
                let kaiwaritu = req_u8(e, "kaiwaritu")?;
                let novelupdated_at = req_text(e, "novelupdated_at")?;
                let updated_at = req_text(e, "updated_at")?;
                let weekly_unique = opt_u32(e, "weekly_unique")?;
                Ok(NocturneNovelInfo {
                    title,
                    ncode,
                    writer,
                    story,
                    nocgenre,
                    gensaku,
                    keyword,
                    general_firstup,
                    general_lastup,
                    novel_type,
                    end,
                    general_all_no,
                    length,
                    time,
                    isstop,
                    isbl,
                    isgl,
                    iszankoku,
                    istensei,
                    istenni,
                    global_point,
                    daily_point,
                    weekly_point,
                    monthly_point,
                    quarter_point,
                    yearly_point,
                    fav_novel_cnt,
                    impression_cnt,
                    review_cnt,
                    all_point,
                    all_hyoka_cnt,
                    sasie_cnt,
                    kaiwaritu,
                    novelupdated_at,
                    updated_at,
                    weekly_unique,
                })
            },
            _ => Err(ApiError::Deserialization("a record is not a map".to_string())),
        }
    }
}

/// An adult-site search answer: the total count and the novels.
#[derive(Debug, Clone)]
pub struct NocturneNovelApiResponse {
    pub allcount: u32,
    pub novels: Vec<NocturneNovelInfo>,
}

impl View for NocturneNovelApiResponse {
    type V = (u32, Seq<NocturneNovelInfo>);

    open spec fn view(&self) -> Self::V {
        (self.allcount, self.novels@)
    }
}

/// The first-generation adult-site search client.
pub struct NocturneNovelApiClient {
    pub base_url: String,
}

impl NocturneNovelApiClient {
    pub fn new() -> (r: Self)
        ensures
            r.base_url@ == "https://api.syosetu.com/novel18api/api/"@,
    {
        Self { base_url: "https://api.syosetu.com/novel18api/api/".to_string() }
    }

    /// Decodes a response to `params` with HTTP status `status`: the body is
    /// read as `read_body` does, then its document as the envelope says.
    pub fn decode_search(&self, status: u16, body: Vec<u8>, params: &NocturneNovelApiRequest) -> (r: Result<NocturneNovelApiResponse, ApiError>)
        ensures
            !is_success(status) ==> r is Err && status_failure(r->Err_0, status),
            match body_doc(status, body@, gzip_on(params.gzip), opt_view(params.out)) {
                Err(f) => r is Err && fault_error(r->Err_0, f, status),
                Ok(t) => match search_answer::<NocturneNovelInfo>(t) {
                    Some(v) => r is Ok && r->Ok_0@ == v,
                    None => r is Err && r->Err_0 is Deserialization,
                },
            },
    {
        let tree = read_body(status, body, gzip_requested(params.gzip), &params.out)?;
        let (allcount, novels) = decode_search_answer::<NocturneNovelInfo>(&tree)?;
        Ok(NocturneNovelApiResponse { allcount, novels })
    }
}

} // verus!
