use vstd::prelude::*;
use crate::api::common::body::{
    Selectable, body_doc, decode_search_answer_with, fault_error, has_code, loose_text, loose_u64, member, member_of, narrow_u16, narrow_u32, narrow_u8, read_body, search_answer_with, text_of, u16_of, u32_of, u8_of,
};
use crate::api::common::client::{is_success, status_failure};
use crate::api::common::error::ApiError;
use crate::api::common::request::{gzip_on, gzip_requested};
use crate::api::common::params::{
    num_pair, opt_view, pairs_view, push_text, push_u32, push_u8, text_pair, widen_u32, widen_u8,
};
use crate::api::common::selector::{split_dash, split_dashes};
use crate::api::common::tree::{Node};

pub use crate::api::endpoints::narou::NarouNovelInfo;

verus! {

/// A query of the novel search API, first generation.
#[derive(Debug, Clone)]
pub struct NarouNovelApiRequest {
    pub gzip: Option<u8>,
    pub out: Option<String>,
    pub of: Option<String>,
    pub lim: Option<u32>,
    pub st: Option<u32>,
    pub order: Option<String>,
    pub libtype: Option<u8>,
    pub word: Option<String>,
    pub notword: Option<String>,
    pub title: Option<u8>,
    pub ex: Option<u8>,
    pub keyword: Option<u8>,
    pub wname: Option<u8>,
    pub biggenre: Option<String>,
    pub notbiggenre: Option<String>,
    pub genre: Option<String>,
    pub notgenre: Option<String>,
    pub userid: Option<String>,
    pub isr15: Option<u8>,
    pub isbl: Option<u8>,
    pub isgl: Option<u8>,
    pub iszankoku: Option<u8>,
    pub istensei: Option<u8>,
    pub istenni: Option<u8>,
    pub istt: Option<u8>,
    pub notr15: Option<u8>,
    pub notbl: Option<u8>,
    pub notgl: Option<u8>,
    pub notzankoku: Option<u8>,
    pub nottensei: Option<u8>,
    pub nottenni: Option<u8>,
    pub minlen: Option<u32>,
    pub maxlen: Option<u32>,
    pub length: Option<String>,
    pub kaiwaritu: Option<String>,
    pub sasie: Option<String>,
    pub mintime: Option<u32>,
    pub maxtime: Option<u32>,
    pub time: Option<String>,
    pub ncode: Option<String>,
    pub type_filter: Option<String>,
    pub buntai: Option<String>,
    pub stop: Option<u8>,
    pub lastup: Option<String>,
    pub lastupdate: Option<String>,
    pub ispickup: Option<u8>,
    pub opt: Option<String>,
    pub callback: Option<String>,
    pub updatetype: Option<u8>,
}

impl NarouNovelApiRequest {
    /// The query parameters, in the order the search sends them.
    pub open spec fn query_spec(&self) -> Seq<(Seq<char>, Seq<char>)> {
        Seq::empty()
            + num_pair("gzip"@, widen_u8(self.gzip))
            + text_pair("out"@, opt_view(self.out))
            + text_pair("of"@, opt_view(self.of))
            + num_pair("lim"@, widen_u32(self.lim))
            + num_pair("st"@, widen_u32(self.st))
            + text_pair("order"@, opt_view(self.order))
            + num_pair("libtype"@, widen_u8(self.libtype))
            + text_pair("word"@, opt_view(self.word))
            + text_pair("notword"@, opt_view(self.notword))
            + num_pair("title"@, widen_u8(self.title))
            + num_pair("ex"@, widen_u8(self.ex))
            + num_pair("keyword"@, widen_u8(self.keyword))
            + num_pair("wname"@, widen_u8(self.wname))
            + text_pair("biggenre"@, opt_view(self.biggenre))
            + text_pair("notbiggenre"@, opt_view(self.notbiggenre))
            + text_pair("genre"@, opt_view(self.genre))
            + text_pair("notgenre"@, opt_view(self.notgenre))
            + text_pair("userid"@, opt_view(self.userid))
            + num_pair("isr15"@, widen_u8(self.isr15))
            + num_pair("isbl"@, widen_u8(self.isbl))
            + num_pair("isgl"@, widen_u8(self.isgl))
            + num_pair("iszankoku"@, widen_u8(self.iszankoku))
            + num_pair("istensei"@, widen_u8(self.istensei))
            + num_pair("istenni"@, widen_u8(self.istenni))
            + num_pair("istt"@, widen_u8(self.istt))
            + num_pair("notr15"@, widen_u8(self.notr15))
            + num_pair("notbl"@, widen_u8(self.notbl))
            + num_pair("notgl"@, widen_u8(self.notgl))
            + num_pair("notzankoku"@, widen_u8(self.notzankoku))
            + num_pair("nottensei"@, widen_u8(self.nottensei))
            + num_pair("nottenni"@, widen_u8(self.nottenni))
            + num_pair("minlen"@, widen_u32(self.minlen))
            + num_pair("maxlen"@, widen_u32(self.maxlen))
            + text_pair("length"@, opt_view(self.length))
            + text_pair("kaiwaritu"@, opt_view(self.kaiwaritu))
            + text_pair("sasie"@, opt_view(self.sasie))
            + num_pair("mintime"@, widen_u32(self.mintime))
            + num_pair("maxtime"@, widen_u32(self.maxtime))
            + text_pair("time"@, opt_view(self.time))
            + text_pair("ncode"@, opt_view(self.ncode))
            + text_pair("type"@, opt_view(self.type_filter))
            + text_pair("buntai"@, opt_view(self.buntai))
            + num_pair("stop"@, widen_u8(self.stop))
            + text_pair("lastup"@, opt_view(self.lastup))
            + text_pair("lastupdate"@, opt_view(self.lastupdate))
            + num_pair("ispickup"@, widen_u8(self.ispickup))
            + text_pair("opt"@, opt_view(self.opt))
            + text_pair("callback"@, opt_view(self.callback))
            + num_pair("updatetype"@, widen_u8(self.updatetype))
    }

    pub fn query_params(&self) -> (r: Vec<(String, String)>)
        ensures
            pairs_view(r@) == self.query_spec(),
    {
        let mut params: Vec<(String, String)> = Vec::new();
        assert(pairs_view(params@) =~= Seq::empty());
        push_u8(&mut params, "gzip", self.gzip);
        push_text(&mut params, "out", &self.out);
        push_text(&mut params, "of", &self.of);
        push_u32(&mut params, "lim", self.lim);
        push_u32(&mut params, "st", self.st);
        push_text(&mut params, "order", &self.order);
        push_u8(&mut params, "libtype", self.libtype);
        push_text(&mut params, "word", &self.word);
        push_text(&mut params, "notword", &self.notword);
        push_u8(&mut params, "title", self.title);
        push_u8(&mut params, "ex", self.ex);
        push_u8(&mut params, "keyword", self.keyword);
        push_u8(&mut params, "wname", self.wname);
        push_text(&mut params, "biggenre", &self.biggenre);
        push_text(&mut params, "notbiggenre", &self.notbiggenre);
        push_text(&mut params, "genre", &self.genre);
        push_text(&mut params, "notgenre", &self.notgenre);
        push_text(&mut params, "userid", &self.userid);
        push_u8(&mut params, "isr15", self.isr15);
        push_u8(&mut params, "isbl", self.isbl);
        push_u8(&mut params, "isgl", self.isgl);
        push_u8(&mut params, "iszankoku", self.iszankoku);
        push_u8(&mut params, "istensei", self.istensei);
        push_u8(&mut params, "istenni", self.istenni);
        push_u8(&mut params, "istt", self.istt);
        push_u8(&mut params, "notr15", self.notr15);
        push_u8(&mut params, "notbl", self.notbl);
        push_u8(&mut params, "notgl", self.notgl);
        push_u8(&mut params, "notzankoku", self.notzankoku);
        push_u8(&mut params, "nottensei", self.nottensei);
        push_u8(&mut params, "nottenni", self.nottenni);
        push_u32(&mut params, "minlen", self.minlen);
        push_u32(&mut params, "maxlen", self.maxlen);
        push_text(&mut params, "length", &self.length);
        push_text(&mut params, "kaiwaritu", &self.kaiwaritu);
        push_text(&mut params, "sasie", &self.sasie);
        push_u32(&mut params, "mintime", self.mintime);
        push_u32(&mut params, "maxtime", self.maxtime);
        push_text(&mut params, "time", &self.time);
        push_text(&mut params, "ncode", &self.ncode);
        push_text(&mut params, "type", &self.type_filter);
        push_text(&mut params, "buntai", &self.buntai);
        push_u8(&mut params, "stop", self.stop);
        push_text(&mut params, "lastup", &self.lastup);
        push_text(&mut params, "lastupdate", &self.lastupdate);
        push_u8(&mut params, "ispickup", self.ispickup);
        push_text(&mut params, "opt", &self.opt);
        push_text(&mut params, "callback", &self.callback);
        push_u8(&mut params, "updatetype", self.updatetype);
        params
    }
}

impl Default for NarouNovelApiRequest {
    /// JSON output, twenty results, nothing else set.
    fn default() -> (r: Self)
        ensures
            r.gzip is None,
            r.out is Some && r.out->0@ == "json"@,
            r.of is None,
            r.lim == Some(20u32),
            r.st is None,
            r.order is None,
            r.libtype is None,
            r.word is None,
            r.notword is None,
            r.title is None,
            r.ex is None,
            r.keyword is None,
            r.wname is None,
            r.biggenre is None,
            r.notbiggenre is None,
            r.genre is None,
            r.notgenre is None,
            r.userid is None,
            r.isr15 is None,
            r.isbl is None,
            r.isgl is None,
            r.iszankoku is None,
            r.istensei is None,
            r.istenni is None,
            r.istt is None,
            r.notr15 is None,
            r.notbl is None,
            r.notgl is None,
            r.notzankoku is None,
            r.nottensei is None,
            r.nottenni is None,
            r.minlen is None,
            r.maxlen is None,
            r.length is None,
            r.kaiwaritu is None,
            r.sasie is None,
            r.mintime is None,
            r.maxtime is None,
            r.time is None,
            r.ncode is None,
            r.type_filter is None,
            r.buntai is None,
            r.stop is None,
            r.lastup is None,
            r.lastupdate is None,
            r.ispickup is None,
            r.opt is None,
            r.callback is None,
            r.updatetype is None,
    {
        Self {
            gzip: None,
            out: Some("json".to_string()),
            of: None,
            lim: Some(20),
            st: None,
            order: None,
            libtype: None,
            word: None,
            notword: None,
            title: None,
            ex: None,
            keyword: None,
            wname: None,
            biggenre: None,
            notbiggenre: None,
            genre: None,
            notgenre: None,
            userid: None,
            isr15: None,
            isbl: None,
            isgl: None,
            iszankoku: None,
            istensei: None,
            istenni: None,
            istt: None,
            notr15: None,
            notbl: None,
            notgl: None,
            notzankoku: None,
            nottensei: None,
            nottenni: None,
            minlen: None,
            maxlen: None,
            length: None,
            kaiwaritu: None,
            sasie: None,
            mintime: None,
            maxtime: None,
            time: None,
            ncode: None,
            type_filter: None,
            buntai: None,
            stop: None,
            lastup: None,
            lastupdate: None,
            ispickup: None,
            opt: None,
            callback: None,
            updatetype: None,
        }
    }
}

impl Selectable for NarouNovelInfo {
    open spec fn selected(n: Node, codes: Seq<Seq<char>>) -> Self {
        NarouNovelInfo {
            title: if codes.contains("t"@) {
                loose_text(n, "title"@)
            } else {
                None
            },
            ncode: if codes.contains("n"@) {
                loose_text(n, "ncode"@)
            } else {
                None
            },
            userid: if codes.contains("u"@) {
                narrow_u32(loose_u64(n, "userid"@))
            } else {
                None
            },
            writer: if codes.contains("w"@) {
                loose_text(n, "writer"@)
            } else {
                None
            },
            story: if codes.contains("s"@) {
                loose_text(n, "story"@)
            } else {
                None
            },
            biggenre: if codes.contains("bg"@) {
                narrow_u8(loose_u64(n, "biggenre"@))
            } else {
                None
            },
            genre: if codes.contains("g"@) {
                narrow_u16(loose_u64(n, "genre"@))
            } else {
                None
            },
            gensaku: None,
            keyword: if codes.contains("k"@) {
                loose_text(n, "keyword"@)
            } else {
                None
            },
            general_firstup: if codes.contains("gf"@) {
                loose_text(n, "general_firstup"@)
            } else {
                None
            },
            general_lastup: if codes.contains("gl"@) {
                loose_text(n, "general_lastup"@)
            } else {
                None
            },
            novel_type: if codes.contains("nt"@) {
                match narrow_u8(loose_u64(n, "noveltype"@)) {
                    Some(x) => Some(x),
                    None => narrow_u8(loose_u64(n, "novel_type"@)),
                }
            } else {
                None
            },
            end: if codes.contains("e"@) {
                narrow_u8(loose_u64(n, "end"@))
            } else {
                None
            },
            general_all_no: if codes.contains("ga"@) {
                narrow_u32(loose_u64(n, "general_all_no"@))
            } else {
                None
            },
            length: if codes.contains("l"@) {
                narrow_u32(loose_u64(n, "length"@))
            } else {
                None
            },
            time: if codes.contains("ti"@) {
                narrow_u32(loose_u64(n, "time"@))
            } else {
                None
            },
            isstop: if codes.contains("i"@) {
                narrow_u8(loose_u64(n, "isstop"@))
            } else {
                None
            },
            isr15: if codes.contains("ir"@) {
                narrow_u8(loose_u64(n, "isr15"@))
            } else {
                None
            },
            isbl: if codes.contains("ibl"@) {
                narrow_u8(loose_u64(n, "isbl"@))
            } else {
                None
            },
            isgl: if codes.contains("igl"@) {
                narrow_u8(loose_u64(n, "isgl"@))
            } else {
                None
            },
            iszankoku: if codes.contains("izk"@) {
                narrow_u8(loose_u64(n, "iszankoku"@))
            } else {
                None
            },
            istensei: if codes.contains("its"@) {
                narrow_u8(loose_u64(n, "istensei"@))
            } else {
                None
            },
            istenni: if codes.contains("iti"@) {
                narrow_u8(loose_u64(n, "istenni"@))
            } else {
                None
            },
            global_point: if codes.contains("gp"@) {
                narrow_u32(loose_u64(n, "global_point"@))
            } else {
                None
            },
            daily_point: if codes.contains("dp"@) {
                narrow_u32(loose_u64(n, "daily_point"@))
            } else {
                None
            },
            weekly_point: if codes.contains("wp"@) {
                narrow_u32(loose_u64(n, "weekly_point"@))
            } else {
                None
            },
            monthly_point: if codes.contains("mp"@) {
                narrow_u32(loose_u64(n, "monthly_point"@))
            } else {
                None
            },
            quarter_point: if codes.contains("qp"@) {
                narrow_u32(loose_u64(n, "quarter_point"@))
            } else {
                None
            },
            yearly_point: if codes.contains("yp"@) {
                narrow_u32(loose_u64(n, "yearly_point"@))
            } else {
                None
            },
            fav_novel_cnt: if codes.contains("f"@) {
                narrow_u32(loose_u64(n, "fav_novel_cnt"@))
            } else {
                None
            },
            impression_cnt: if codes.contains("imp"@) {
                narrow_u32(loose_u64(n, "impression_cnt"@))
            } else {
                None
            },
            review_cnt: if codes.contains("r"@) {
                narrow_u32(loose_u64(n, "review_cnt"@))
            } else {
                None
            },
            all_point: if codes.contains("a"@) {
                narrow_u32(loose_u64(n, "all_point"@))
            } else {
                None
            },
            all_hyoka_cnt: if codes.contains("ah"@) {
                narrow_u32(loose_u64(n, "all_hyoka_cnt"@))
            } else {
                None
            },
            sasie_cnt: if codes.contains("sa"@) {
                narrow_u32(loose_u64(n, "sasie_cnt"@))
            } else {
                None
            },
            kaiwaritu: if codes.contains("ka"@) {
                narrow_u8(loose_u64(n, "kaiwaritu"@))
            } else {
                None
            },
            novelupdated_at: if codes.contains("nu"@) {
                loose_text(n, "novelupdated_at"@)
            } else {
                None
            },
            updated_at: if codes.contains("ua"@) {
                loose_text(n, "updated_at"@)
            } else {
                None
            },
            weekly_unique: if member(n, "weekly_unique"@) is Some {
                narrow_u32(loose_u64(n, "weekly_unique"@))
            } else {
                None
            },
        }
    }

    fn select(n: &Node, codes: &Vec<&str>) -> (r: Self) {
        NarouNovelInfo {
            title: if has_code(codes, "t") {
                text_of(n, "title")
            } else {
                None
            },
            ncode: if has_code(codes, "n") {
                text_of(n, "ncode")
            } else {
                None
            },
            userid: if has_code(codes, "u") {
                u32_of(n, "userid")
            } else {
                None
            },
            writer: if has_code(codes, "w") {
                text_of(n, "writer")
            } else {
                None
            },
            story: if has_code(codes, "s") {
                text_of(n, "story")
            } else {
                None
            },
            biggenre: if has_code(codes, "bg") {
                u8_of(n, "biggenre")
            } else {
                None
            },
            genre: if has_code(codes, "g") {
                u16_of(n, "genre")
            } else {
                None
            },
            gensaku: None,
            keyword: if has_code(codes, "k") {
                text_of(n, "keyword")
            } else {
                None
            },
            general_firstup: if has_code(codes, "gf") {
                text_of(n, "general_firstup")
            } else {
                None
            },
            general_lastup: if has_code(codes, "gl") {
                text_of(n, "general_lastup")
            } else {
                None
            },
            novel_type: if has_code(codes, "nt") {
                match u8_of(n, "noveltype") {
                    Some(x) => Some(x),
                    None => u8_of(n, "novel_type"),
                }
            } else {
                None
            },
            end: if has_code(codes, "e") {
                u8_of(n, "end")
            } else {
                None
            },
            general_all_no: if has_code(codes, "ga") {
                u32_of(n, "general_all_no")
            } else {
                None
            },
            length: if has_code(codes, "l") {
                u32_of(n, "length")
            } else {
                None
            },
            time: if has_code(codes, "ti") {
                u32_of(n, "time")
            } else {
                None
            },
            isstop: if has_code(codes, "i") {
                u8_of(n, "isstop")
            } else {
                None
            },
            isr15: if has_code(codes, "ir") {
                u8_of(n, "isr15")
            } else {
                None
            },
            isbl: if has_code(codes, "ibl") {
                u8_of(n, "isbl")
            } else {
                None
            },
            isgl: if has_code(codes, "igl") {
                u8_of(n, "isgl")
            } else {
                None
            },
            iszankoku: if has_code(codes, "izk") {
                u8_of(n, "iszankoku")
            } else {
                None
            },
            istensei: if has_code(codes, "its") {
                u8_of(n, "istensei")
            } else {
                None
            },
            istenni: if has_code(codes, "iti") {
                u8_of(n, "istenni")
            } else {
                None
            },
            global_point: if has_code(codes, "gp") {
                u32_of(n, "global_point")
            } else {
                None
            },
            daily_point: if has_code(codes, "dp") {
                u32_of(n, "daily_point")
            } else {
                None
            },
            weekly_point: if has_code(codes, "wp") {
                u32_of(n, "weekly_point")
            } else {
                None
            },
            monthly_point: if has_code(codes, "mp") {
                u32_of(n, "monthly_point")
            } else {
                None
            },
            quarter_point: if has_code(codes, "qp") {
                u32_of(n, "quarter_point")
            } else {
                None
            },
            yearly_point: if has_code(codes, "yp") {
                u32_of(n, "yearly_point")
            } else {
                None
            },
            fav_novel_cnt: if has_code(codes, "f") {
                u32_of(n, "fav_novel_cnt")
            } else {
                None
            },
            impression_cnt: if has_code(codes, "imp") {
                u32_of(n, "impression_cnt")
            } else {
                None
            },
            review_cnt: if has_code(codes, "r") {
                u32_of(n, "review_cnt")
            } else {
                None
            },
            all_point: if has_code(codes, "a") {
                u32_of(n, "all_point")
            } else {
                None
            },
            all_hyoka_cnt: if has_code(codes, "ah") {
                u32_of(n, "all_hyoka_cnt")
            } else {
                None
            },
            sasie_cnt: if has_code(codes, "sa") {
                u32_of(n, "sasie_cnt")
            } else {
                None
            },
            kaiwaritu: if has_code(codes, "ka") {
                u8_of(n, "kaiwaritu")
            } else {
                None
            },
            novelupdated_at: if has_code(codes, "nu") {
                text_of(n, "novelupdated_at")
            } else {
                None
            },
            updated_at: if has_code(codes, "ua") {
                text_of(n, "updated_at")
            } else {
                None
            },
            weekly_unique: if member_of(n, "weekly_unique").is_some() {
                u32_of(n, "weekly_unique")
            } else {
                None
            },
        }
    }
}

/// The codes of a request's field selector.
pub open spec fn selector_codes(of: Option<String>) -> Option<Seq<Seq<char>>> {
    match of {
        Some(o) => Some(split_dash(o@)),
        None => None,
    }
}

/// A novel search answer: the total count and the novels.
#[derive(Debug, Clone)]
pub struct NarouNovelApiResponse {
    pub allcount: u32,
    pub novels: Vec<NarouNovelInfo>,
}

impl View for NarouNovelApiResponse {
    type V = (u32, Seq<NarouNovelInfo>);

    open spec fn view(&self) -> Self::V {
        (self.allcount, self.novels@)
    }
}

/// The first-generation novel search client.
pub struct NarouNovelApiClient {
    pub base_url: String,
}

impl NarouNovelApiClient {
    pub fn new() -> (r: Self)
        ensures
            r.base_url@ == "https://api.syosetu.com/novelapi/api/"@,
    {
        Self { base_url: "https://api.syosetu.com/novelapi/api/".to_string() }
    }

    /// Decodes a response to `params` with HTTP status `status`: the body is
    /// read as `read_body` does, then its document as the envelope says.
    pub fn decode_search(&self, status: u16, body: Vec<u8>, params: &NarouNovelApiRequest) -> (r: Result<NarouNovelApiResponse, ApiError>)
        ensures
            !is_success(status) ==> r is Err && status_failure(r->Err_0, status),
            match body_doc(status, body@, gzip_on(params.gzip), opt_view(params.out)) {
                Err(f) => r is Err && fault_error(r->Err_0, f, status),
                Ok(t) => match search_answer_with::<NarouNovelInfo>(t, selector_codes(params.of)) {
                    Some(v) => r is Ok && r->Ok_0@ == v,
                    None => r is Err && r->Err_0 is Deserialization,
                },
            },
    {
        let tree = read_body(status, body, gzip_requested(params.gzip), &params.out)?;
        let codes: Option<Vec<&str>> = match &params.of {
            Some(o) => Some(split_dashes(o.as_str())),
            None => None,
        };
        let (allcount, novels) = decode_search_answer_with::<NarouNovelInfo>(&tree, &codes)?;
        Ok(NarouNovelApiResponse { allcount, novels })
    }
}

} // verus!
