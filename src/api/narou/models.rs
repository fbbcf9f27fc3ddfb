use vstd::prelude::*;
use crate::api::common::error::ApiError;
use crate::api::common::response::{key_names, Entity};
use crate::api::common::tree::{opt_text, opt_u32, req_text, req_u32, required, text_field, u32_field, Node};

verus! {

/// A novel record as the novel API sends it.
#[derive(Debug, Clone)]
pub struct NarouNovel {
    pub title: Option<String>,
    pub ncode: Option<String>,
    pub userid: Option<u32>,
    pub writer: Option<String>,
    pub story: Option<String>,
    pub biggenre: Option<u32>,
    pub genre: Option<u32>,
    pub gensaku: Option<String>,
    pub keyword: Option<String>,
    pub general_firstup: Option<String>,
    pub general_lastup: Option<String>,
    pub novel_type: Option<u32>,
    pub end: Option<u32>,
    pub general_all_no: Option<u32>,
    pub length: Option<u32>,
    pub time: Option<u32>,
    pub isstop: Option<u32>,
    pub isr15: Option<u32>,
    pub isbl: Option<u32>,
    pub isgl: Option<u32>,
    pub iszankoku: Option<u32>,
    pub istensei: Option<u32>,
    pub istenni: Option<u32>,
    pub global_point: Option<u32>,
    pub daily_point: Option<u32>,
    pub weekly_point: Option<u32>,
    pub monthly_point: Option<u32>,
    pub quarter_point: Option<u32>,
    pub yearly_point: Option<u32>,
    pub fav_novel_cnt: Option<u32>,
    pub impression_cnt: Option<u32>,
    pub review_cnt: Option<u32>,
    pub all_point: Option<u32>,
    pub all_hyoka_cnt: Option<u32>,
    pub sasie_cnt: Option<u32>,
    pub kaiwaritu: Option<u32>,
    pub novelupdated_at: Option<String>,
    pub updated_at: Option<String>,
    pub pc_or_k: Option<u32>,
}

/// A user record as the user API sends it.
#[derive(Debug, Clone)]
pub struct NarouUser {
    pub userid: Option<u32>,
    pub name: Option<String>,
    pub yomikata: Option<String>,
    pub name1st: Option<String>,
    pub novel_cnt: Option<u32>,
    pub review_cnt: Option<u32>,
    pub novel_length: Option<u32>,
    pub sum_global_point: Option<u32>,
    pub sumglobalpoint: Option<u32>,
}

/// One row of a ranking.
#[derive(Debug, Clone)]
pub struct NarouRankingItem {
    pub rank: u32,
    pub pt: u32,
    pub ncode: String,
}

/// The rankings a novel entered.
#[derive(Debug, Clone)]
pub struct NarouRankinResponse {
    pub rank: Vec<NarouRankinRecord>,
}

/// One ranking a novel entered.
#[derive(Debug, Clone)]
pub struct NarouRankinRecord {
    pub pt: u32,
    pub rank: u32,
    pub rtype: String,
}

/// An API answer: a list of records, or an error message.
#[derive(Debug, Clone)]
pub enum NarouApiResponse<T> {
    Success(Vec<T>),
    Error { error: String },
}

/// The sort orders of the novel API.
#[derive(Debug, Clone, Copy, PartialEq, Eq, Structural)]
pub enum NarouOrder {
    New,
    FavNovelCnt,
    ReviewCnt,
    Hyoka,
    HyokaAsc,
    DailyPoint,
    WeeklyPoint,
    MonthlyPoint,
    QuarterPoint,
    YearlyPoint,
    ImpressionCnt,
    HyokaCnt,
    HyokaCntAsc,
    Weekly,
    LengthDesc,
    LengthAsc,
    NcodeDesc,
    NcodeAsc,
    Old,
}

impl NarouOrder {
    /// The value the API takes for it.
    pub open spec fn name(self) -> Seq<char> {
        match self {
            NarouOrder::New => "new"@,
            NarouOrder::FavNovelCnt => "favnovelcnt"@,
            NarouOrder::ReviewCnt => "reviewcnt"@,
            NarouOrder::Hyoka => "hyoka"@,
            NarouOrder::HyokaAsc => "hyokaasc"@,
            NarouOrder::DailyPoint => "dailypoint"@,
            NarouOrder::WeeklyPoint => "weeklypoint"@,
            NarouOrder::MonthlyPoint => "monthlypoint"@,
            NarouOrder::QuarterPoint => "quarterpoint"@,
            NarouOrder::YearlyPoint => "yearlypoint"@,
            NarouOrder::ImpressionCnt => "impressioncnt"@,
            NarouOrder::HyokaCnt => "hyokacnt"@,
            NarouOrder::HyokaCntAsc => "hyokacntasc"@,
            NarouOrder::Weekly => "weekly"@,
            NarouOrder::LengthDesc => "lengthdesc"@,
            NarouOrder::LengthAsc => "lengthasc"@,
            NarouOrder::NcodeDesc => "ncodedesc"@,
            NarouOrder::NcodeAsc => "ncodeasc"@,
            NarouOrder::Old => "old"@,
        }
    }

    pub fn as_str(&self) -> (r: &'static str)
        ensures
            r@ == self.name(),
    {
        match self {
            NarouOrder::New => "new",
            NarouOrder::FavNovelCnt => "favnovelcnt",
            NarouOrder::ReviewCnt => "reviewcnt",
            NarouOrder::Hyoka => "hyoka",
            NarouOrder::HyokaAsc => "hyokaasc",
            NarouOrder::DailyPoint => "dailypoint",
            NarouOrder::WeeklyPoint => "weeklypoint",
            NarouOrder::MonthlyPoint => "monthlypoint",
            NarouOrder::QuarterPoint => "quarterpoint",
            NarouOrder::YearlyPoint => "yearlypoint",
            NarouOrder::ImpressionCnt => "impressioncnt",
            NarouOrder::HyokaCnt => "hyokacnt",
            NarouOrder::HyokaCntAsc => "hyokacntasc",
            NarouOrder::Weekly => "weekly",
            NarouOrder::LengthDesc => "lengthdesc",
            NarouOrder::LengthAsc => "lengthasc",
            NarouOrder::NcodeDesc => "ncodedesc",
            NarouOrder::NcodeAsc => "ncodeasc",
            NarouOrder::Old => "old",
        }
    }
}

/// The output formats of the novel API.
#[derive(Debug, Clone, Copy, PartialEq, Eq, Structural)]
pub enum NarouOutputFormat {
    Json,
    Yaml,
    Php,
}

impl NarouOutputFormat {
    /// The value the API takes for it.
    pub open spec fn name(self) -> Seq<char> {
        match self {
            NarouOutputFormat::Json => "json"@,
            NarouOutputFormat::Yaml => "yaml"@,
            NarouOutputFormat::Php => "php"@,
        }
    }

    pub fn as_str(&self) -> (r: &'static str)
        ensures
            r@ == self.name(),
    {
        match self {
            NarouOutputFormat::Json => "json",
            NarouOutputFormat::Yaml => "yaml",
            NarouOutputFormat::Php => "php",
        }
    }
}

impl Entity for NarouNovel {
    open spec fn shape() -> Seq<Seq<char>> {
        seq!["ncode"@]
    }

    fn shape_keys() -> (r: Vec<&'static str>) {
        let keys: Vec<&'static str> = vec!["ncode"];
        assert(key_names(keys@) =~= seq!["ncode"@]);
        keys
    }

    /// A map whose entries fit the field types; absent and null optional
    /// fields read as `None`, unknown entries are ignored.
    open spec fn decoded(n: Node) -> Option<Self> {
        match n {
            Node::Dict(e) => {
                let title = text_field(e@, "title"@);
                let ncode = text_field(e@, "ncode"@);
                let userid = u32_field(e@, "userid"@);
                let writer = text_field(e@, "writer"@);
                let story = text_field(e@, "story"@);
                let biggenre = u32_field(e@, "biggenre"@);
                let genre = u32_field(e@, "genre"@);
                let gensaku = text_field(e@, "gensaku"@);
                let keyword = text_field(e@, "keyword"@);
                let general_firstup = text_field(e@, "general_firstup"@);
                let general_lastup = text_field(e@, "general_lastup"@);
                let novel_type = u32_field(e@, "novel_type"@);
                let end = u32_field(e@, "end"@);
                let general_all_no = u32_field(e@, "general_all_no"@);
                let length = u32_field(e@, "length"@);
                let time = u32_field(e@, "time"@);
                let isstop = u32_field(e@, "isstop"@);
                let isr15 = u32_field(e@, "isr15"@);
                let isbl = u32_field(e@, "isbl"@);
                let isgl = u32_field(e@, "isgl"@);
                let iszankoku = u32_field(e@, "iszankoku"@);
                let istensei = u32_field(e@, "istensei"@);
                let istenni = u32_field(e@, "istenni"@);
                let global_point = u32_field(e@, "global_point"@);
                let daily_point = u32_field(e@, "daily_point"@);
                let weekly_point = u32_field(e@, "weekly_point"@);
                let monthly_point = u32_field(e@, "monthly_point"@);
                let quarter_point = u32_field(e@, "quarter_point"@);
                let yearly_point = u32_field(e@, "yearly_point"@);
                let fav_novel_cnt = u32_field(e@, "fav_novel_cnt"@);
                let impression_cnt = u32_field(e@, "impression_cnt"@);
                let review_cnt = u32_field(e@, "review_cnt"@);
                let all_point = u32_field(e@, "all_point"@);
                let all_hyoka_cnt = u32_field(e@, "all_hyoka_cnt"@);
                let sasie_cnt = u32_field(e@, "sasie_cnt"@);
                let kaiwaritu = u32_field(e@, "kaiwaritu"@);
                let novelupdated_at = text_field(e@, "novelupdated_at"@);
                let updated_at = text_field(e@, "updated_at"@);
                let pc_or_k = u32_field(e@, "pc_or_k"@);
                if title is Some
                    && ncode is Some
                    && userid is Some
                    && writer is Some
                    && story is Some
                    && biggenre is Some
                    && genre is Some
                    && gensaku is Some
                    && keyword is Some
                    && general_firstup is Some
                    && general_lastup is Some
                    && novel_type is Some
                    && end is Some
                    && general_all_no is Some
                    && length is Some
                    && time is Some
                    && isstop is Some
                    && isr15 is Some
                    && isbl is Some
                    && isgl is Some
                    && iszankoku is Some
                    && istensei is Some
                    && istenni is Some
                    && global_point is Some
                    && daily_point is Some
                    && weekly_point is Some
                    && monthly_point is Some
                    && quarter_point is Some
                    && yearly_point is Some
                    && fav_novel_cnt is Some
                    && impression_cnt is Some
                    && review_cnt is Some
                    && all_point is Some
                    && all_hyoka_cnt is Some
                    && sasie_cnt is Some
                    && kaiwaritu is Some
                    && novelupdated_at is Some
                    && updated_at is Some
                    && pc_or_k is Some {
                    Some(NarouNovel {
                        title: title->0,
                        ncode: ncode->0,
                        userid: userid->0,
                        writer: writer->0,
                        story: story->0,
                        biggenre: biggenre->0,
                        genre: genre->0,
                        gensaku: gensaku->0,
                        keyword: keyword->0,
                        general_firstup: general_firstup->0,
                        general_lastup: general_lastup->0,
                        novel_type: novel_type->0,
                        end: end->0,
                        general_all_no: general_all_no->0,
                        length: length->0,
                        time: time->0,
                        isstop: isstop->0,
                        isr15: isr15->0,
                        isbl: isbl->0,
                        isgl: isgl->0,
                        iszankoku: iszankoku->0,
                        istensei: istensei->0,
                        istenni: istenni->0,
                        global_point: global_point->0,
                        daily_point: daily_point->0,
                        weekly_point: weekly_point->0,
                        monthly_point: monthly_point->0,
                        quarter_point: quarter_point->0,
                        yearly_point: yearly_point->0,
                        fav_novel_cnt: fav_novel_cnt->0,
                        impression_cnt: impression_cnt->0,
                        review_cnt: review_cnt->0,
                        all_point: all_point->0,
                        all_hyoka_cnt: all_hyoka_cnt->0,
                        sasie_cnt: sasie_cnt->0,
                        kaiwaritu: kaiwaritu->0,
                        novelupdated_at: novelupdated_at->0,
                        updated_at: updated_at->0,
                        pc_or_k: pc_or_k->0,
                    })
                } else {
                    None
                }
            },
            _ => None,
        }
    }

    fn from_node(n: &Node) -> (r: Result<Self, ApiError>) {
        match n {
            Node::Dict(e) => {
                let title = opt_text(e, "title")?;
                let ncode = opt_text(e, "ncode")?;
                let userid = opt_u32(e, "userid")?;
                let writer = opt_text(e, "writer")?;
                let story = opt_text(e, "story")?;
                let biggenre = opt_u32(e, "biggenre")?;
                let genre = opt_u32(e, "genre")?;
                let gensaku = opt_text(e, "gensaku")?;
                let keyword = opt_text(e, "keyword")?;
                let general_firstup = opt_text(e, "general_firstup")?;
                let general_lastup = opt_text(e, "general_lastup")?;
                let novel_type = opt_u32(e, "novel_type")?;
                let end = opt_u32(e, "end")?;
                let general_all_no = opt_u32(e, "general_all_no")?;
                let length = opt_u32(e, "length")?;
                let time = opt_u32(e, "time")?;
                let isstop = opt_u32(e, "isstop")?;
                let isr15 = opt_u32(e, "isr15")?;
                let isbl = opt_u32(e, "isbl")?;
                let isgl = opt_u32(e, "isgl")?;
                let iszankoku = opt_u32(e, "iszankoku")?;
                let istensei = opt_u32(e, "istensei")?;
                let istenni = opt_u32(e, "istenni")?;
                let global_point = opt_u32(e, "global_point")?;
                let daily_point = opt_u32(e, "daily_point")?;
                let weekly_point = opt_u32(e, "weekly_point")?;
                let monthly_point = opt_u32(e, "monthly_point")?;
                let quarter_point = opt_u32(e, "quarter_point")?;
                let yearly_point = opt_u32(e, "yearly_point")?;
                let fav_novel_cnt = opt_u32(e, "fav_novel_cnt")?;
                let impression_cnt = opt_u32(e, "impression_cnt")?;
                let review_cnt = opt_u32(e, "review_cnt")?;
                let all_point = opt_u32(e, "all_point")?;
                let all_hyoka_cnt = opt_u32(e, "all_hyoka_cnt")?;
                let sasie_cnt = opt_u32(e, "sasie_cnt")?;
                let kaiwaritu = opt_u32(e, "kaiwaritu")?;
                let novelupdated_at = opt_text(e, "novelupdated_at")?;
                let updated_at = opt_text(e, "updated_at")?;
                let pc_or_k = opt_u32(e, "pc_or_k")?;
                Ok(NarouNovel {
                    title,
                    ncode,
                    userid,
                    writer,
                    story,
                    biggenre,
                    genre,
                    gensaku,
                    keyword,
                    general_firstup,
                    general_lastup,
                    novel_type,
                    end,
                    general_all_no,
                    length,
                    time,
                    isstop,
                    isr15,
                    isbl,
                    isgl,
                    iszankoku,
                    istensei,
                    istenni,
                    global_point,
                    daily_point,
                    weekly_point,
                    monthly_point,
                    quarter_point,
                    yearly_point,
                    fav_novel_cnt,
                    impression_cnt,
                    review_cnt,
                    all_point,
                    all_hyoka_cnt,
                    sasie_cnt,
                    kaiwaritu,
                    novelupdated_at,
                    updated_at,
                    pc_or_k,
                })
            },
            _ => Err(ApiError::Deserialization("a record is not a map".to_string())),
        }
    }
}

impl Entity for NarouUser {
    open spec fn shape() -> Seq<Seq<char>> {
        seq!["userid"@]
    }

    fn shape_keys() -> (r: Vec<&'static str>) {
        let keys: Vec<&'static str> = vec!["userid"];
        assert(key_names(keys@) =~= seq!["userid"@]);
        keys
    }

    /// A map whose entries fit the field types; absent and null optional
    /// fields read as `None`, unknown entries are ignored.
    open spec fn decoded(n: Node) -> Option<Self> {
        match n {
            Node::Dict(e) => {
                let userid = u32_field(e@, "userid"@);
                let name = text_field(e@, "name"@);
                let yomikata = text_field(e@, "yomikata"@);
                let name1st = text_field(e@, "name1st"@);
                let novel_cnt = u32_field(e@, "novel_cnt"@);
                let review_cnt = u32_field(e@, "review_cnt"@);
                let novel_length = u32_field(e@, "novel_length"@);
                let sum_global_point = u32_field(e@, "sum_global_point"@);
                let sumglobalpoint = u32_field(e@, "sumglobalpoint"@);
                if userid is Some
                    && name is Some
                    && yomikata is Some
                    && name1st is Some
                    && novel_cnt is Some
                    && review_cnt is Some
                    && novel_length is Some
                    && sum_global_point is Some
                    && sumglobalpoint is Some {
                    Some(NarouUser {
                        userid: userid->0,
                        name: name->0,
                        yomikata: yomikata->0,
                        name1st: name1st->0,
                        novel_cnt: novel_cnt->0,
                        review_cnt: review_cnt->0,
                        novel_length: novel_length->0,
                        sum_global_point: sum_global_point->0,
                        sumglobalpoint: sumglobalpoint->0,
                    })
                } else {
                    None
                }
            },
            _ => None,
        }
    }

    fn from_node(n: &Node) -> (r: Result<Self, ApiError>) {
        match n {
            Node::Dict(e) => {
                let userid = opt_u32(e, "userid")?;
                let name = opt_text(e, "name")?;
                let yomikata = opt_text(e, "yomikata")?;
                let name1st = opt_text(e, "name1st")?;
                let novel_cnt = opt_u32(e, "novel_cnt")?;
                let review_cnt = opt_u32(e, "review_cnt")?;
                let novel_length = opt_u32(e, "novel_length")?;
                let sum_global_point = opt_u32(e, "sum_global_point")?;
                let sumglobalpoint = opt_u32(e, "sumglobalpoint")?;
                Ok(NarouUser {
                    userid,
                    name,
                    yomikata,
                    name1st,
                    novel_cnt,
                    review_cnt,
                    novel_length,
                    sum_global_point,
                    sumglobalpoint,
                })
            },
            _ => Err(ApiError::Deserialization("a record is not a map".to_string())),
        }
    }
}

impl Entity for NarouRankingItem {
    open spec fn shape() -> Seq<Seq<char>> {
        seq!["rank"@, "pt"@, "ncode"@]
    }

    fn shape_keys() -> (r: Vec<&'static str>) {
        let keys: Vec<&'static str> = vec!["rank", "pt", "ncode"];
        assert(key_names(keys@) =~= seq!["rank"@, "pt"@, "ncode"@]);
        keys
    }

    /// A map whose entries fit the field types; absent and null optional
    /// fields read as `None`, unknown entries are ignored.
    open spec fn decoded(n: Node) -> Option<Self> {
        match n {
            Node::Dict(e) => {
                let rank = required(u32_field(e@, "rank"@));
                let pt = required(u32_field(e@, "pt"@));
                let ncode = required(text_field(e@, "ncode"@));
                if rank is Some && pt is Some && ncode is Some {
                    Some(NarouRankingItem {
                        rank: rank->0,
                        pt: pt->0,
                        ncode: ncode->0,
                    })
                } else {
                    None
                }
            },
            _ => None,
        }
    }

    fn from_node(n: &Node) -> (r: Result<Self, ApiError>) {
        match n {
            Node::Dict(e) => {
                let rank = req_u32(e, "rank")?;
                let pt = req_u32(e, "pt")?;
                let ncode = req_text(e, "ncode")?;
                Ok(NarouRankingItem {
                    rank,
                    pt,
                    ncode,
                })
            },
            _ => Err(ApiError::Deserialization("a record is not a map".to_string())),
        }
    }
}

impl Entity for NarouRankinRecord {
    open spec fn shape() -> Seq<Seq<char>> {
        seq!["pt"@, "rank"@, "rtype"@]
    }

    fn shape_keys() -> (r: Vec<&'static str>) {
        let keys: Vec<&'static str> = vec!["pt", "rank", "rtype"];
        assert(key_names(keys@) =~= seq!["pt"@, "rank"@, "rtype"@]);
        keys
    }

    /// A map whose entries fit the field types; absent and null optional
    /// fields read as `None`, unknown entries are ignored.
    open spec fn decoded(n: Node) -> Option<Self> {
        match n {
            Node::Dict(e) => {
                let pt = required(u32_field(e@, "pt"@));
                let rank = required(u32_field(e@, "rank"@));
                let rtype = required(text_field(e@, "rtype"@));
                if pt is Some && rank is Some && rtype is Some {
                    Some(NarouRankinRecord {
                        pt: pt->0,
                        rank: rank->0,
                        rtype: rtype->0,
                    })
                } else {
                    None
                }
            },
            _ => None,
        }
    }

    fn from_node(n: &Node) -> (r: Result<Self, ApiError>) {
        match n {
            Node::Dict(e) => {
                let pt = req_u32(e, "pt")?;
                let rank = req_u32(e, "rank")?;
                let rtype = req_text(e, "rtype")?;
                Ok(NarouRankinRecord {
                    pt,
                    rank,
                    rtype,
                })
            },
            _ => Err(ApiError::Deserialization("a record is not a map".to_string())),
        }
    }
}

} // verus!
