use std::io::Write;

use web_novel_scraper::api::common::client::finish_response;
use web_novel_scraper::api::common::response::Entity;
use web_novel_scraper::api::common::tree::Node;
use web_novel_scraper::api::endpoints::hall_of_fame::HallOfFameEntry;
use web_novel_scraper::api::endpoints::narou::NarouNovelInfo;
use web_novel_scraper::api::endpoints::ranking::RankingEntry;
use web_novel_scraper::api::endpoints::user::NarouUserInfo;
use web_novel_scraper::api::{
    ApiError, ApiRequest, ApiResponse, HallOfFameResponse, NarouRequest, NarouResponse, NocturneResponse,
    OutputFormat, RankingResponse, ResponseProcessor, UserResponse,
};

fn gzip(data: &[u8]) -> Vec<u8> {
    let mut enc = flate2::write::GzEncoder::new(Vec::new(), flate2::Compression::default());
    enc.write_all(data).unwrap();
    enc.finish().unwrap()
}

#[test]
fn scenario_single_novel_json() {
    let mut req = NarouRequest::new();
    req.ncode = Some("n1234ab".to_string());
    assert_eq!(req.out, Some("json".to_string()));
    assert_eq!(req.gzip, None);
    assert_eq!(
        req.to_query_params(),
        vec![("out".to_string(), "json".to_string()), ("ncode".to_string(), "n1234ab".to_string())]
    );
    let body = br#"[{"title":"Foo","ncode":"n1234ab"}]"#.to_vec();
    let resp: NarouResponse = finish_response(200, body, &req.output_format(), req.is_gzip()).unwrap();
    assert_eq!(resp.allcount, None);
    assert_eq!(resp.novels.len(), 1);
    assert_eq!(resp.novels[0].title, Some("Foo".to_string()));
    assert_eq!(resp.novels[0].ncode, Some("n1234ab".to_string()));
    assert_eq!(resp.novels[0].userid, None);
}

#[test]
fn empty_list_has_no_records() {
    let r = UserResponse::from_json(b"[]").unwrap();
    assert_eq!(r.allcount, None);
    assert!(r.users.is_empty());
    let r = RankingResponse::from_yaml(b"[]").unwrap();
    assert!(r.rankings.is_empty());
}

#[test]
fn leading_count_record_is_split_off() {
    let r = NarouResponse::from_json(br#"[{"allcount": 5}, {"title": "A", "genre": 201}]"#).unwrap();
    assert_eq!(r.allcount, Some(5));
    assert_eq!(r.novels.len(), 1);
    assert_eq!(r.novels[0].title, Some("A".to_string()));
    assert_eq!(r.novels[0].genre, Some(201));
}

#[test]
fn leading_count_record_in_yaml() {
    let r = UserResponse::from_yaml(b"- allcount: 2\n- userid: 7\n  name: bob\n- userid: 8\n").unwrap();
    assert_eq!(r.allcount, Some(2));
    assert_eq!(r.users.len(), 2);
    assert_eq!(r.users[0].name, Some("bob".to_string()));
    assert_eq!(r.users[1].userid, Some(8));
}

#[test]
fn first_record_without_count_is_a_record() {
    let r = NocturneResponse::from_json(br#"[{"title": "X"}, {"title": "Y"}]"#).unwrap();
    assert_eq!(r.allcount, None);
    assert_eq!(r.novels.len(), 2);
}

#[test]
fn bare_record_is_one_entry() {
    let r = RankingResponse::from_json(br#"{"ncode": "n1", "pt": 10, "rank": 1}"#).unwrap();
    assert_eq!(r.rankings, vec![RankingEntry { ncode: "n1".to_string(), pt: 10, rank: 1 }]);
    let r = HallOfFameResponse::from_yaml(b"rtype: 20130501-d\npt: 3\nrank: 9\n").unwrap();
    assert_eq!(r.rankings.len(), 1);
    assert_eq!(r.rankings[0].rtype, "20130501-d");
}

#[test]
fn bare_map_without_record_keys_is_empty() {
    let r = RankingResponse::from_json(br#"{"ncode": "n1", "pt": 10}"#).unwrap();
    assert!(r.rankings.is_empty());
    let r = NarouResponse::from_json(br#"{"title": "lonely"}"#).unwrap();
    assert!(r.novels.is_empty());
    let r = UserResponse::from_json(b"42").unwrap();
    assert!(r.users.is_empty());
}

#[test]
fn bad_record_fails_the_batch() {
    let r = NarouResponse::from_json(br#"[{"allcount": 2}, {"title": "ok"}, {"title": 5}]"#);
    assert!(matches!(r, Err(ApiError::Deserialization(_))));
    let r = RankingResponse::from_json(br#"[{"ncode": "n1", "pt": 10}]"#);
    assert!(matches!(r, Err(ApiError::Deserialization(_))));
    let r = NarouResponse::from_json(br#"[{"genre": 70000}]"#);
    assert!(matches!(r, Err(ApiError::Deserialization(_))));
}

#[test]
fn body_that_does_not_parse() {
    let r = NarouResponse::from_json(b"{not json");
    assert!(matches!(r, Err(ApiError::Deserialization(_))));
    let r = UserResponse::from_yaml(b"a: [unclosed");
    assert!(matches!(r, Err(ApiError::Deserialization(_))));
}

#[test]
fn gzip_payload_comes_back() {
    let payload = br#"[{"allcount": 1}, {"userid": 3}]"#;
    let packed = gzip(payload);
    assert_ne!(packed, payload.to_vec());
    assert_eq!(ResponseProcessor::decompress_gzip(&packed).unwrap(), payload.to_vec());
    let r: UserResponse = ResponseProcessor::process(packed, &OutputFormat::Json, true).unwrap();
    assert_eq!(r.allcount, Some(1));
    assert_eq!(r.users[0].userid, Some(3));
}

#[test]
fn gzip_off_passes_bytes_through() {
    let data = b"plain, not gzip".to_vec();
    assert_eq!(ResponseProcessor::decompress_if(data.clone(), false).unwrap(), data);
}

#[test]
fn corrupt_gzip_is_an_error() {
    let r = ResponseProcessor::decompress_gzip(b"definitely not gzip");
    assert!(matches!(r, Err(ApiError::GzipDecompression(_))));
    let r: Result<UserResponse, ApiError> = ResponseProcessor::process(b"[]".to_vec(), &OutputFormat::Json, true);
    assert!(matches!(r, Err(ApiError::GzipDecompression(_))));
}

#[test]
fn unsupported_formats_fail_closed() {
    for format in [OutputFormat::Php, OutputFormat::Atom, OutputFormat::Jsonp("cb".to_string())] {
        let r: Result<NarouResponse, ApiError> = ResponseProcessor::process(b"[]".to_vec(), &format, false);
        assert!(matches!(r, Err(ApiError::InvalidFormat(_))));
        let r: Result<NarouResponse, ApiError> = ResponseProcessor::process(b"garbage".to_vec(), &format, true);
        assert!(matches!(r, Err(ApiError::InvalidFormat(_))));
    }
}

#[test]
fn non_success_status_is_a_network_error() {
    let r: Result<NarouResponse, ApiError> = finish_response(404, b"[]".to_vec(), &OutputFormat::Json, false);
    assert!(matches!(r, Err(ApiError::Network { status: Some(404), .. })));
    let r: Result<NarouResponse, ApiError> = finish_response(500, b"{bad".to_vec(), &OutputFormat::Php, true);
    assert!(matches!(r, Err(ApiError::Network { status: Some(500), .. })));
    let r: Result<NarouResponse, ApiError> = finish_response(204, b"[]".to_vec(), &OutputFormat::Json, false);
    assert!(r.is_ok());
}

#[test]
fn yaml_is_the_default_decoder() {
    let r: UserResponse = ResponseProcessor::process(b"- userid: 1\n".to_vec(), &OutputFormat::Yaml, false).unwrap();
    assert_eq!(r.users[0].userid, Some(1));
}

#[test]
fn detect_format_from_first_byte() {
    assert_eq!(ResponseProcessor::detect_format_from_content(b"  \n[1]"), OutputFormat::Json);
    assert_eq!(ResponseProcessor::detect_format_from_content(b"{}"), OutputFormat::Json);
    assert_eq!(ResponseProcessor::detect_format_from_content(b"- a"), OutputFormat::Yaml);
    assert_eq!(ResponseProcessor::detect_format_from_content(b""), OutputFormat::Yaml);
    assert_eq!(ResponseProcessor::detect_format_from_content(b" \t "), OutputFormat::Yaml);
}

#[test]
fn output_format_names() {
    assert_eq!(OutputFormat::from_str("json", None), OutputFormat::Json);
    assert_eq!(OutputFormat::from_str("yaml", None), OutputFormat::Yaml);
    assert_eq!(OutputFormat::from_str("php", None), OutputFormat::Php);
    assert_eq!(OutputFormat::from_str("atom", None), OutputFormat::Atom);
    assert_eq!(OutputFormat::from_str("jsonp", Some("f")), OutputFormat::Jsonp("f".to_string()));
    assert_eq!(OutputFormat::from_str("jsonp", None), OutputFormat::Jsonp("callback".to_string()));
    assert_eq!(OutputFormat::from_str("xml", None), OutputFormat::Yaml);
    assert_eq!(OutputFormat::Jsonp("x".to_string()).to_string(), "jsonp");
    assert_eq!(OutputFormat::Atom.to_string(), "atom");
}

#[test]
fn small_records_round_trip_through_nodes() {
    let e = RankingEntry { ncode: "n9".to_string(), pt: 4_000_000_000, rank: 300 };
    assert_eq!(RankingEntry::from_node(&e.to_node()).unwrap(), e);
    let h = HallOfFameEntry { rtype: "20200101-w".to_string(), pt: 12, rank: 1 };
    assert_eq!(HallOfFameEntry::from_node(&h.to_node()).unwrap(), h);
    let u = NarouUserInfo {
        userid: Some(1),
        name: Some("n".to_string()),
        yomikata: Some("y".to_string()),
        name1st: Some("N".to_string()),
        novel_cnt: Some(2),
        review_cnt: Some(3),
        novel_length: Some(u64::MAX),
        sum_global_point: Some(5),
    };
    assert_eq!(NarouUserInfo::from_node(&u.to_node()).unwrap(), u);
    assert!(matches!(NarouUserInfo::from_node(&Node::Null), Err(ApiError::Deserialization(_))));
}

fn full_novel() -> NarouNovelInfo {
    NarouNovelInfo {
        title: Some("t".to_string()),
        ncode: Some("n0001a".to_string()),
        userid: Some(1),
        writer: Some("w".to_string()),
        story: Some("s".to_string()),
        biggenre: Some(2),
        genre: Some(201),
        gensaku: Some("g".to_string()),
        keyword: Some("k".to_string()),
        general_firstup: Some("2020-01-01 00:00:00".to_string()),
        general_lastup: Some("2021-01-01 00:00:00".to_string()),
        novel_type: Some(1),
        end: Some(0),
        general_all_no: Some(3),
        length: Some(4),
        time: Some(5),
        isstop: Some(0),
        isr15: Some(1),
        isbl: Some(0),
        isgl: Some(0),
        iszankoku: Some(1),
        istensei: Some(0),
        istenni: Some(1),
        global_point: Some(6),
        daily_point: Some(7),
        weekly_point: Some(8),
        monthly_point: Some(9),
        quarter_point: Some(10),
        yearly_point: Some(11),
        fav_novel_cnt: Some(12),
        impression_cnt: Some(13),
        review_cnt: Some(14),
        all_point: Some(15),
        all_hyoka_cnt: Some(16),
        sasie_cnt: Some(17),
        kaiwaritu: Some(18),
        novelupdated_at: Some("2022-01-01 00:00:00".to_string()),
        updated_at: Some("2023-01-01 00:00:00".to_string()),
        weekly_unique: Some(19),
    }
}

fn text(s: &Option<String>) -> serde_json::Value {
    match s {
        Some(v) => serde_json::Value::String(v.clone()),
        None => serde_json::Value::Null,
    }
}

fn num<T: Into<u64> + Copy>(n: &Option<T>) -> serde_json::Value {
    match n {
        Some(v) => serde_json::Value::from((*v).into()),
        None => serde_json::Value::Null,
    }
}

#[test]
fn full_novel_round_trips_through_json() {
    let n = full_novel();
    let mut m = serde_json::Map::new();
    m.insert("title".into(), text(&n.title));
    m.insert("ncode".into(), text(&n.ncode));
    m.insert("userid".into(), num(&n.userid));
    m.insert("writer".into(), text(&n.writer));
    m.insert("story".into(), text(&n.story));
    m.insert("biggenre".into(), num(&n.biggenre));
    m.insert("genre".into(), num(&n.genre));
    m.insert("gensaku".into(), text(&n.gensaku));
    m.insert("keyword".into(), text(&n.keyword));
    m.insert("general_firstup".into(), text(&n.general_firstup));
    m.insert("general_lastup".into(), text(&n.general_lastup));
    m.insert("novel_type".into(), num(&n.novel_type));
    m.insert("end".into(), num(&n.end));
    m.insert("general_all_no".into(), num(&n.general_all_no));
    m.insert("length".into(), num(&n.length));
    m.insert("time".into(), num(&n.time));
    m.insert("isstop".into(), num(&n.isstop));
    m.insert("isr15".into(), num(&n.isr15));
    m.insert("isbl".into(), num(&n.isbl));
    m.insert("isgl".into(), num(&n.isgl));
    m.insert("iszankoku".into(), num(&n.iszankoku));
    m.insert("istensei".into(), num(&n.istensei));
    m.insert("istenni".into(), num(&n.istenni));
    m.insert("global_point".into(), num(&n.global_point));
    m.insert("daily_point".into(), num(&n.daily_point));
    m.insert("weekly_point".into(), num(&n.weekly_point));
    m.insert("monthly_point".into(), num(&n.monthly_point));
    m.insert("quarter_point".into(), num(&n.quarter_point));
    m.insert("yearly_point".into(), num(&n.yearly_point));
    m.insert("fav_novel_cnt".into(), num(&n.fav_novel_cnt));
    m.insert("impression_cnt".into(), num(&n.impression_cnt));
    m.insert("review_cnt".into(), num(&n.review_cnt));
    m.insert("all_point".into(), num(&n.all_point));
    m.insert("all_hyoka_cnt".into(), num(&n.all_hyoka_cnt));
    m.insert("sasie_cnt".into(), num(&n.sasie_cnt));
    m.insert("kaiwaritu".into(), num(&n.kaiwaritu));
    m.insert("novelupdated_at".into(), text(&n.novelupdated_at));
    m.insert("updated_at".into(), text(&n.updated_at));
    m.insert("weekly_unique".into(), num(&n.weekly_unique));
    let doc = serde_json::Value::Array(vec![serde_json::Value::Object(m)]);
    let bytes = serde_json::to_vec(&doc).unwrap();
    let r = NarouResponse::from_json(&bytes).unwrap();
    assert_eq!(r.novels, vec![n]);
}

#[test]
fn empty_body_has_no_records() {
    let r = RankingResponse::from_json(b"").unwrap();
    assert!(r.rankings.is_empty());
    let r = NarouResponse::from_json(b"").unwrap();
    assert_eq!(r.allcount, None);
    assert!(r.novels.is_empty());
    let r: UserResponse = ResponseProcessor::process(Vec::new(), &OutputFormat::Yaml, false).unwrap();
    assert!(r.users.is_empty());
}

#[test]
fn unsupported_format_messages() {
    let r: Result<NarouResponse, ApiError> =
        ResponseProcessor::process(b"[]".to_vec(), &OutputFormat::Jsonp("cb".to_string()), false);
    assert!(matches!(r, Err(ApiError::InvalidFormat(m)) if m == "JSONP format is not supported"));
    let r: Result<NarouResponse, ApiError> = ResponseProcessor::process(b"[]".to_vec(), &OutputFormat::Php, false);
    assert!(matches!(r, Err(ApiError::InvalidFormat(m)) if m == "PHP format is not supported"));
}

#[test]
fn bare_novel_object_is_one_record() {
    let r = NarouResponse::from_json(br#"{"title":"Foo","ncode":"n1234ab"}"#).unwrap();
    assert_eq!(r.allcount, None);
    assert_eq!(r.novels.len(), 1);
    assert_eq!(r.novels[0].title, Some("Foo".to_string()));
    let r = UserResponse::from_yaml(b"userid: 5\nname: kim\n").unwrap();
    assert_eq!(r.users.len(), 1);
    assert_eq!(r.users[0].name, Some("kim".to_string()));
    let r = NocturneResponse::from_json(br#"{"ncode": "n9", "title": 3}"#);
    assert!(matches!(r, Err(ApiError::Deserialization(_))));
    let r = NarouResponse::from_json(br#"{"allcount": 5}"#).unwrap();
    assert!(r.novels.is_empty());
}
