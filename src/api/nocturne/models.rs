use vstd::prelude::*;
use crate::api::common::error::ApiError;
use crate::api::common::response::{key_names, Entity};
use crate::api::common::tree::{opt_text, opt_u32, text_field, u32_field, Node};

verus! {

/// A novel record as the adult-site API sends it.
#[derive(Debug, Clone)]
pub struct NocturneNovel {
    pub title: Option<String>,
    pub ncode: Option<String>,
    pub writer: Option<String>,
    pub story: Option<String>,
    pub nocgenre: Option<u32>,
    pub gensaku: Option<String>,
    pub keyword: Option<String>,
    pub general_firstup: Option<String>,
    pub general_lastup: Option<String>,
    pub novel_type: Option<u32>,
    pub end: Option<u32>,
    pub general_all_no: Option<u32>,
    pub length: Option<u32>,
    pub time: Option<u32>,
    pub isstop: Option<u32>,
    pub isbl: Option<u32>,
    pub isgl: Option<u32>,
    pub iszankoku: Option<u32>,
    pub istensei: Option<u32>,
    pub istenni: Option<u32>,
    pub global_point: Option<u32>,
    pub daily_point: Option<u32>,
    pub weekly_point: Option<u32>,
    pub monthly_point: Option<u32>,
    pub quarter_point: Option<u32>,
    pub yearly_point: Option<u32>,
    pub fav_novel_cnt: Option<u32>,
    pub impression_cnt: Option<u32>,
    pub review_cnt: Option<u32>,
    pub all_point: Option<u32>,
    pub all_hyoka_cnt: Option<u32>,
    pub sasie_cnt: Option<u32>,
    pub kaiwaritu: Option<u32>,
    pub novelupdated_at: Option<String>,
    pub updated_at: Option<String>,
    pub xid: Option<String>,
    pub novel_no: Option<u32>,
    pub nocturne: Option<u32>,
    pub pc_or_k: Option<u32>,
}

/// An API answer: a list of records, or an error message.
#[derive(Debug, Clone)]
pub enum NocturneApiResponse<T> {
    Success(Vec<T>),
    Error { error: String },
}

/// The sort orders of the adult-site API.
#[derive(Debug, Clone, Copy, PartialEq, Eq, Structural)]
pub enum NocturneOrder {
    New,
    FavNovelCnt,
    ReviewCnt,
    Hyoka,
    HyokaAsc,
    DailyPoint,
    WeeklyPoint,
    MonthlyPoint,
    QuarterPoint,
    YearlyPoint,
    ImpressionCnt,
    HyokaCnt,
    HyokaCntAsc,
    Weekly,
    LengthDesc,
    LengthAsc,
    NcodeDesc,
    NcodeAsc,
    Old,
}

impl NocturneOrder {
    /// The value the API takes for it.
    pub open spec fn name(self) -> Seq<char> {
        match self {
            NocturneOrder::New => "new"@,
            NocturneOrder::FavNovelCnt => "favnovelcnt"@,
            NocturneOrder::ReviewCnt => "reviewcnt"@,
            NocturneOrder::Hyoka => "hyoka"@,
            NocturneOrder::HyokaAsc => "hyokaasc"@,
            NocturneOrder::DailyPoint => "dailypoint"@,
            NocturneOrder::WeeklyPoint => "weeklypoint"@,
            NocturneOrder::MonthlyPoint => "monthlypoint"@,
            NocturneOrder::QuarterPoint => "quarterpoint"@,
            NocturneOrder::YearlyPoint => "yearlypoint"@,
            NocturneOrder::ImpressionCnt => "impressioncnt"@,
            NocturneOrder::HyokaCnt => "hyokacnt"@,
            NocturneOrder::HyokaCntAsc => "hyokacntasc"@,
            NocturneOrder::Weekly => "weekly"@,
            NocturneOrder::LengthDesc => "lengthdesc"@,
            NocturneOrder::LengthAsc => "lengthasc"@,
            NocturneOrder::NcodeDesc => "ncodedesc"@,
            NocturneOrder::NcodeAsc => "ncodeasc"@,
            NocturneOrder::Old => "old"@,
        }
    }

    pub fn as_str(&self) -> (r: &'static str)
        ensures
            r@ == self.name(),
    {
        match self {
            NocturneOrder::New => "new",
            NocturneOrder::FavNovelCnt => "favnovelcnt",
            NocturneOrder::ReviewCnt => "reviewcnt",
            NocturneOrder::Hyoka => "hyoka",
            NocturneOrder::HyokaAsc => "hyokaasc",
            NocturneOrder::DailyPoint => "dailypoint",
            NocturneOrder::WeeklyPoint => "weeklypoint",
            NocturneOrder::MonthlyPoint => "monthlypoint",
            NocturneOrder::QuarterPoint => "quarterpoint",
            NocturneOrder::YearlyPoint => "yearlypoint",
            NocturneOrder::ImpressionCnt => "impressioncnt",
            NocturneOrder::HyokaCnt => "hyokacnt",
            NocturneOrder::HyokaCntAsc => "hyokacntasc",
            NocturneOrder::Weekly => "weekly",
            NocturneOrder::LengthDesc => "lengthdesc",
            NocturneOrder::LengthAsc => "lengthasc",
            NocturneOrder::NcodeDesc => "ncodedesc",
            NocturneOrder::NcodeAsc => "ncodeasc",
            NocturneOrder::Old => "old",
        }
    }
}

/// The genres of the three adult sites: codes 1 to 100 belong to the first,
/// 101 to 200 to the second, 201 to 300 to the third.
#[derive(Debug, Clone, Copy, PartialEq, Eq, Structural)]
pub enum NocturneGenre {
    NocAnotherWorld,
    NocRealWorld,
    NocSF,
    NocFantasy,
    NocRomance,
    NocHorror,
    NocMystery,
    NocScience,
    NocMecha,
    NocHistory,
    MoonHetero,
    MoonBL,
    MoonPoetry,
    MoonEssay,
    MoonReplay,
    MoonOther,
    MidModern,
    MidOverseas,
    MidHistory,
    MidHistoryOverseas,
    MidFantasy,
    MidSF,
    MidOther,
}

impl NocturneGenre {
    /// The genre code.
    pub open spec fn code(self) -> u32 {
        match self {
            NocturneGenre::NocAnotherWorld => 1,
            NocturneGenre::NocRealWorld => 2,
            NocturneGenre::NocSF => 3,
            NocturneGenre::NocFantasy => 4,
            NocturneGenre::NocRomance => 5,
            NocturneGenre::NocHorror => 6,
            NocturneGenre::NocMystery => 7,
            NocturneGenre::NocScience => 8,
            NocturneGenre::NocMecha => 9,
            NocturneGenre::NocHistory => 10,
            NocturneGenre::MoonHetero => 101,
            NocturneGenre::MoonBL => 102,
            NocturneGenre::MoonPoetry => 103,
            NocturneGenre::MoonEssay => 104,
            NocturneGenre::MoonReplay => 105,
            NocturneGenre::MoonOther => 106,
            NocturneGenre::MidModern => 201,
            NocturneGenre::MidOverseas => 202,
            NocturneGenre::MidHistory => 203,
            NocturneGenre::MidHistoryOverseas => 204,
            NocturneGenre::MidFantasy => 205,
            NocturneGenre::MidSF => 206,
            NocturneGenre::MidOther => 207,
        }
    }

    pub fn value(&self) -> (r: u32)
        ensures
            r == self.code(),
    {
        match self {
            NocturneGenre::NocAnotherWorld => 1,
            NocturneGenre::NocRealWorld => 2,
            NocturneGenre::NocSF => 3,
            NocturneGenre::NocFantasy => 4,
            NocturneGenre::NocRomance => 5,
            NocturneGenre::NocHorror => 6,
            NocturneGenre::NocMystery => 7,
            NocturneGenre::NocScience => 8,
            NocturneGenre::NocMecha => 9,
            NocturneGenre::NocHistory => 10,
            NocturneGenre::MoonHetero => 101,
            NocturneGenre::MoonBL => 102,
            NocturneGenre::MoonPoetry => 103,
            NocturneGenre::MoonEssay => 104,
            NocturneGenre::MoonReplay => 105,
            NocturneGenre::MoonOther => 106,
            NocturneGenre::MidModern => 201,
            NocturneGenre::MidOverseas => 202,
            NocturneGenre::MidHistory => 203,
            NocturneGenre::MidHistoryOverseas => 204,
            NocturneGenre::MidFantasy => 205,
            NocturneGenre::MidSF => 206,
            NocturneGenre::MidOther => 207,
        }
    }

    /// The name of the site that a genre code belongs to.
    pub open spec fn site_name_of(code: u32) -> Seq<char> {
        if 1 <= code <= 100 {
            "ノクターンノベルズ"@
        } else if 101 <= code <= 200 {
            "ムーンライトノベルズ"@
        } else if 201 <= code <= 300 {
            "ミッドナイトノベルズ"@
        } else {
            "不明"@
        }
    }

    /// The short code of the site that a genre code belongs to.
    pub open spec fn site_code_of(code: u32) -> Seq<char> {
        if 1 <= code <= 100 {
            "noc"@
        } else if 101 <= code <= 200 {
            "mnlt"@
        } else if 201 <= code <= 300 {
            "mid"@
        } else {
            "unknown"@
        }
    }

    pub fn site_name(&self) -> (r: &'static str)
        ensures
            r@ == Self::site_name_of(self.code()),
    {
        let v = self.value();
        if 1 <= v && v <= 100 {
            "ノクターンノベルズ"
        } else if 101 <= v && v <= 200 {
            "ムーンライトノベルズ"
        } else if 201 <= v && v <= 300 {
            "ミッドナイトノベルズ"
        } else {
            "不明"
        }
    }

    pub fn site_code(&self) -> (r: &'static str)
        ensures
            r@ == Self::site_code_of(self.code()),
    {
        let v = self.value();
        if 1 <= v && v <= 100 {
            "noc"
        } else if 101 <= v && v <= 200 {
            "mnlt"
        } else if 201 <= v && v <= 300 {
            "mid"
        } else {
            "unknown"
        }
    }
}

/// The output formats of the adult-site API.
#[derive(Debug, Clone, Copy, PartialEq, Eq, Structural)]
pub enum NocturneOutputFormat {
    Json,
    Yaml,
    Php,
}

impl NocturneOutputFormat {
    /// The value the API takes for it.
    pub open spec fn name(self) -> Seq<char> {
        match self {
            NocturneOutputFormat::Json => "json"@,
            NocturneOutputFormat::Yaml => "yaml"@,
            NocturneOutputFormat::Php => "php"@,
        }
    }

    pub fn as_str(&self) -> (r: &'static str)
        ensures
            r@ == self.name(),
    {
        match self {
            NocturneOutputFormat::Json => "json",
            NocturneOutputFormat::Yaml => "yaml",
            NocturneOutputFormat::Php => "php",
        }
    }
}

impl Entity for NocturneNovel {
    open spec fn shape() -> Seq<Seq<char>> {
        seq!["ncode"@]
    }

    fn shape_keys() -> (r: Vec<&'static str>) {
        let keys: Vec<&'static str> = vec!["ncode"];
        assert(key_names(keys@) =~= seq!["ncode"@]);
        keys
    }

    /// A map whose entries fit the field types; absent and null optional
    /// fields read as `None`, unknown entries are ignored.
    open spec fn decoded(n: Node) -> Option<Self> {
        match n {
            Node::Dict(e) => {
                let title = text_field(e@, "title"@);
                let ncode = text_field(e@, "ncode"@);
                let writer = text_field(e@, "writer"@);
                let story = text_field(e@, "story"@);
                let nocgenre = u32_field(e@, "nocgenre"@);
                let gensaku = text_field(e@, "gensaku"@);
                let keyword = text_field(e@, "keyword"@);
                let general_firstup = text_field(e@, "general_firstup"@);
                let general_lastup = text_field(e@, "general_lastup"@);
                let novel_type = u32_field(e@, "novel_type"@);
                let end = u32_field(e@, "end"@);
                let general_all_no = u32_field(e@, "general_all_no"@);
                let length = u32_field(e@, "length"@);
                let time = u32_field(e@, "time"@);
                let isstop = u32_field(e@, "isstop"@);
                let isbl = u32_field(e@, "isbl"@);
                let isgl = u32_field(e@, "isgl"@);
                let iszankoku = u32_field(e@, "iszankoku"@);
                let istensei = u32_field(e@, "istensei"@);
                let istenni = u32_field(e@, "istenni"@);
                let global_point = u32_field(e@, "global_point"@);
                let daily_point = u32_field(e@, "daily_point"@);
                let weekly_point = u32_field(e@, "weekly_point"@);
                let monthly_point = u32_field(e@, "monthly_point"@);
                let quarter_point = u32_field(e@, "quarter_point"@);
                let yearly_point = u32_field(e@, "yearly_point"@);
                let fav_novel_cnt = u32_field(e@, "fav_novel_cnt"@);
                let impression_cnt = u32_field(e@, "impression_cnt"@);
                let review_cnt = u32_field(e@, "review_cnt"@);
                let all_point = u32_field(e@, "all_point"@);
                let all_hyoka_cnt = u32_field(e@, "all_hyoka_cnt"@);
                let sasie_cnt = u32_field(e@, "sasie_cnt"@);
                let kaiwaritu = u32_field(e@, "kaiwaritu"@);
                let novelupdated_at = text_field(e@, "novelupdated_at"@);
                let updated_at = text_field(e@, "updated_at"@);
                let xid = text_field(e@, "xid"@);
                let novel_no = u32_field(e@, "novel_no"@);
                let nocturne = u32_field(e@, "nocturne"@);
                let pc_or_k = u32_field(e@, "pc_or_k"@);
                if title is Some
                    && ncode is Some
                    && writer is Some
                    && story is Some
                    && nocgenre is Some
                    && gensaku is Some
                    && keyword is Some
                    && general_firstup is Some
                    && general_lastup is Some
                    && novel_type is Some
                    && end is Some
                    && general_all_no is Some
                    && length is Some
                    && time is Some
                    && isstop is Some
                    && isbl is Some
                    && isgl is Some
                    && iszankoku is Some
                    && istensei is Some
                    && istenni is Some
                    && global_point is Some
                    && daily_point is Some
                    && weekly_point is Some
                    && monthly_point is Some
                    && quarter_point is Some
                    && yearly_point is Some
                    && fav_novel_cnt is Some
                    && impression_cnt is Some
                    && review_cnt is Some
                    && all_point is Some
                    && all_hyoka_cnt is Some
                    && sasie_cnt is Some
                    && kaiwaritu is Some
                    && novelupdated_at is Some
                    && updated_at is Some
                    && xid is Some
                    && novel_no is Some
                    && nocturne is Some
                    && pc_or_k is Some {
                    Some(NocturneNovel {
                        title: title->0,
                        ncode: ncode->0,
                        writer: writer->0,
                        story: story->0,
                        nocgenre: nocgenre->0,
                        gensaku: gensaku->0,
                        keyword: keyword->0,
                        general_firstup: general_firstup->0,
                        general_lastup: general_lastup->0,
                        novel_type: novel_type->0,
                        end: end->0,
                        general_all_no: general_all_no->0,
                        length: length->0,
                        time: time->0,
                        isstop: isstop->0,
                        isbl: isbl->0,
                        isgl: isgl->0,
                        iszankoku: iszankoku->0,
                        istensei: istensei->0,
                        istenni: istenni->0,
                        global_point: global_point->0,
                        daily_point: daily_point->0,
                        weekly_point: weekly_point->0,
                        monthly_point: monthly_point->0,
                        quarter_point: quarter_point->0,
                        yearly_point: yearly_point->0,
                        fav_novel_cnt: fav_novel_cnt->0,
                        impression_cnt: impression_cnt->0,
                        review_cnt: review_cnt->0,
                        all_point: all_point->0,
                        all_hyoka_cnt: all_hyoka_cnt->0,
                        sasie_cnt: sasie_cnt->0,
                        kaiwaritu: kaiwaritu->0,
                        novelupdated_at: novelupdated_at->0,
                        updated_at: updated_at->0,
                        xid: xid->0,
                        novel_no: novel_no->0,
                        nocturne: nocturne->0,
                        pc_or_k: pc_or_k->0,
                    })
                } else {
                    None
                }
            },
            _ => None,
        }
    }

    fn from_node(n: &Node) -> (r: Result<Self, ApiError>) {
        match n {
            Node::Dict(e) => {
                let title = opt_text(e, "title")?;
                let ncode = opt_text(e, "ncode")?;
                let writer = opt_text(e, "writer")?;
                let story = opt_text(e, "story")?;
                let nocgenre = opt_u32(e, "nocgenre")?;
                let gensaku = opt_text(e, "gensaku")?;
                let keyword = opt_text(e, "keyword")?;
                let general_firstup = opt_text(e, "general_firstup")?;
                let general_lastup = opt_text(e, "general_lastup")?;
                let novel_type = opt_u32(e, "novel_type")?;
                let end = opt_u32(e, "end")?;
                let general_all_no = opt_u32(e, "general_all_no")?;
                let length = opt_u32(e, "length")?;
                let time = opt_u32(e, "time")?;
                let isstop = opt_u32(e, "isstop")?;
                let isbl = opt_u32(e, "isbl")?;
                let isgl = opt_u32(e, "isgl")?;
                let iszankoku = opt_u32(e, "iszankoku")?;
                let istensei = opt_u32(e, "istensei")?;
                let istenni = opt_u32(e, "istenni")?;
                let global_point = opt_u32(e, "global_point")?;
                let daily_point = opt_u32(e, "daily_point")?;
                let weekly_point = opt_u32(e, "weekly_point")?;
                let monthly_point = opt_u32(e, "monthly_point")?;
                let quarter_point = opt_u32(e, "quarter_point")?;
                let yearly_point = opt_u32(e, "yearly_point")?;
                let fav_novel_cnt = opt_u32(e, "fav_novel_cnt")?;
                let impression_cnt = opt_u32(e, "impression_cnt")?;
                let review_cnt = opt_u32(e, "review_cnt")?;
                let all_point = opt_u32(e, "all_point")?;
                let all_hyoka_cnt = opt_u32(e, "all_hyoka_cnt")?;
                let sasie_cnt = opt_u32(e, "sasie_cnt")?;
                let kaiwaritu = opt_u32(e, "kaiwaritu")?;
                let novelupdated_at = opt_text(e, "novelupdated_at")?;
                let updated_at = opt_text(e, "updated_at")?;
                let xid = opt_text(e, "xid")?;
                let novel_no = opt_u32(e, "novel_no")?;
                let nocturne = opt_u32(e, "nocturne")?;
                let pc_or_k = opt_u32(e, "pc_or_k")?;
                Ok(NocturneNovel {
                    title,
                    ncode,
                    writer,
                    story,
                    nocgenre,
                    gensaku,
                    keyword,
                    general_firstup,
                    general_lastup,
                    novel_type,
                    end,
                    general_all_no,
                    length,
                    time,
                    isstop,
                    isbl,
                    isgl,
                    iszankoku,
                    istensei,
                    istenni,
                    global_point,
                    daily_point,
                    weekly_point,
                    monthly_point,
                    quarter_point,
                    yearly_point,
                    fav_novel_cnt,
                    impression_cnt,
                    review_cnt,
                    all_point,
                    all_hyoka_cnt,
                    sasie_cnt,
                    kaiwaritu,
                    novelupdated_at,
                    updated_at,
                    xid,
                    novel_no,
                    nocturne,
                    pc_or_k,
                })
            },
            _ => Err(ApiError::Deserialization("a record is not a map".to_string())),
        }
    }
}

} // verus!
