use std::io::Write;

use web_novel_scraper::api::common::listing::decode_listing;
use web_novel_scraper::api::common::params::level_sent;
use web_novel_scraper::api::narou::models::{NarouNovel, NarouOrder, NarouRankinRecord};
use web_novel_scraper::api::narou::novel_api::NovelSearchParams;
use web_novel_scraper::api::narou::rankin_api::{rankin_query, rankin_query_for};
use web_novel_scraper::api::narou::ranking_api::{ranking_query, RankingType};
use web_novel_scraper::api::narou::user_api::UserSearchParams;
use web_novel_scraper::api::nocturne::novel_api::NocturneSearchParams;
use web_novel_scraper::api::ApiError;
use web_novel_scraper::api_hall_of_fame::{NarouHallOfFameApiClient, NarouHallOfFameApiRequest};
use web_novel_scraper::api_narou::{NarouNovelApiClient, NarouNovelApiRequest};
use web_novel_scraper::api_nocturne::{NocturneNovelApiClient, NocturneNovelApiRequest};
use web_novel_scraper::api_ranking::{NarouRankingApiClient, NarouRankingApiRequest};
use web_novel_scraper::api_user::{NarouUserApiClient, NarouUserApiRequest};

fn pair(k: &str, v: &str) -> (String, String) {
    (k.to_string(), v.to_string())
}

fn gzip(data: &[u8]) -> Vec<u8> {
    let mut enc = flate2::write::GzEncoder::new(Vec::new(), flate2::Compression::default());
    enc.write_all(data).unwrap();
    enc.finish().unwrap()
}

#[test]
fn default_requests() {
    let r = NarouNovelApiRequest::default();
    assert_eq!(r.lim, Some(20));
    assert_eq!(r.query_params(), vec![pair("out", "json"), pair("lim", "20")]);
    let u = NarouUserApiRequest::default();
    assert_eq!(u.query_params(), vec![pair("out", "json"), pair("lim", "20")]);
    let n = NocturneNovelApiRequest::default();
    assert_eq!(n.out, Some("json".to_string()));
}

#[test]
fn ranking_request_constructors() {
    let r = NarouRankingApiRequest::daily("20240101");
    assert_eq!(r.rtype, "20240101-d");
    assert_eq!(r.query_params(), vec![pair("out", "json"), pair("rtype", "20240101-d")]);
    assert_eq!(NarouRankingApiRequest::weekly("20240102").rtype, "20240102-w");
    assert_eq!(NarouRankingApiRequest::monthly("20240101").rtype, "20240101-m");
    assert_eq!(NarouRankingApiRequest::quarterly("20240101").rtype, "20240101-q");
    let h = NarouHallOfFameApiRequest::new("n0001a".to_string());
    assert_eq!(h.query_params(), vec![pair("out", "json"), pair("ncode", "n0001a")]);
}

#[test]
fn strict_search_answer() {
    let api = NarouNovelApiClient::new();
    assert_eq!(api.base_url, "https://api.syosetu.com/novelapi/api/");
    let params = NarouNovelApiRequest::default();
    let r = api.decode_search(200, br#"[{"allcount": 3}, {"title": "A", "userid": 9}]"#.to_vec(), &params).unwrap();
    assert_eq!(r.allcount, 3);
    assert_eq!(r.novels[0].userid, Some(9));
    let r = api.decode_search(200, b"[]".to_vec(), &params).unwrap();
    assert_eq!(r.allcount, 0);
    assert!(r.novels.is_empty());
    let r = api.decode_search(200, br#"[{"title": "no count"}]"#.to_vec(), &params).unwrap();
    assert_eq!(r.allcount, 0);
    assert_eq!(r.novels[0].title, Some("no count".to_string()));
    let r = api.decode_search(200, br#"{"allcount": 3}"#.to_vec(), &params).unwrap();
    assert_eq!(r.allcount, 0);
    assert!(r.novels.is_empty());
    let r = api.decode_search(200, Vec::new(), &params).unwrap();
    assert!(r.novels.is_empty());
    let r = api.decode_search(200, br#"[{"title": 5}]"#.to_vec(), &params);
    assert!(matches!(r, Err(ApiError::Deserialization(_))));
}

#[test]
fn field_selector_reads_leniently() {
    let api = NarouNovelApiClient::new();
    let mut params = NarouNovelApiRequest::default();
    params.of = Some("t-nt-u".to_string());
    let body = br#"[{"allcount": 1}, {"title": 5, "noveltype": 2, "userid": 4294967297, "writer": "w", "weekly_unique": 7}]"#;
    let r = api.decode_search(200, body.to_vec(), &params).unwrap();
    let n = &r.novels[0];
    assert_eq!(n.title, None);
    assert_eq!(n.novel_type, Some(2));
    assert_eq!(n.userid, Some(1));
    assert_eq!(n.writer, None);
    assert_eq!(n.weekly_unique, Some(7));
    let users = NarouUserApiClient::new();
    let mut up = NarouUserApiRequest::default();
    up.of = Some("n-nl".to_string());
    let r = users.decode_search(200, br#"[{"allcount": 1}, {"name": "a", "novel_length": 12, "userid": 3}]"#.to_vec(), &up).unwrap();
    assert_eq!(r.users[0].name, Some("a".to_string()));
    assert_eq!(r.users[0].novel_length, Some(12));
    assert_eq!(r.users[0].userid, None);
}

#[test]
fn first_generation_formats_and_gzip() {
    let api = NarouNovelApiClient::new();
    let mut params = NarouNovelApiRequest::default();
    params.out = Some("atom".to_string());
    assert!(matches!(api.decode_search(200, b"[]".to_vec(), &params), Err(ApiError::InvalidFormat(_))));
    params.out = Some("yaml".to_string());
    params.gzip = Some(1);
    let r = api.decode_search(200, gzip(b"- allcount: 4\n"), &params).unwrap();
    assert_eq!(r.allcount, 4);
    params.gzip = Some(0);
    let r = api.decode_search(200, b"- allcount: 6\n".to_vec(), &params).unwrap();
    assert_eq!(r.allcount, 6);
    params.gzip = None;
    assert!(matches!(api.decode_search(200, vec![0xff, 0xfe], &params), Err(ApiError::Deserialization(_))));
    let users = NarouUserApiClient::new();
    let mut up = NarouUserApiRequest::default();
    up.out = Some("atom".to_string());
    assert!(matches!(users.decode_search(200, b"- allcount: 2\n".to_vec(), &up), Err(ApiError::InvalidFormat(_))));
    let rk = NarouRankingApiClient::new();
    let mut rp = NarouRankingApiRequest::daily("20240101");
    for out in ["php", "atom", "jsonp"] {
        rp.out = Some(out.to_string());
        assert!(matches!(rk.decode_rankings(200, b"[]".to_vec(), &rp), Err(ApiError::InvalidFormat(_))));
    }
}

#[test]
fn first_generation_adult_site_records_are_strict() {
    let api = NocturneNovelApiClient::new();
    let mut params = NocturneNovelApiRequest::default();
    for out in ["php", "atom", "jsonp"] {
        params.out = Some(out.to_string());
        assert!(matches!(api.decode_search(200, b"- allcount: 0\n".to_vec(), &params), Err(ApiError::InvalidFormat(_))));
    }
    params.out = Some("json".to_string());
    params.gzip = Some(2);
    let r = api.decode_search(200, gzip(br#"[{"allcount": 0}]"#), &params).unwrap();
    assert_eq!(r.allcount, 0);
    params.gzip = None;
    let r = api.decode_search(200, br#"[{"allcount": 1}, {"title": "only a title"}]"#.to_vec(), &params);
    assert!(matches!(r, Err(ApiError::Deserialization(_))));
}

#[test]
fn first_generation_rank_lists() {
    let api = NarouRankingApiClient::new();
    let params = NarouRankingApiRequest::daily("20240101");
    let r = api.decode_rankings(200, br#"[{"ncode": "n1", "pt": 5, "rank": 1}]"#.to_vec(), &params).unwrap();
    assert_eq!(r.rankings[0].ncode, "n1");
    let hof = NarouHallOfFameApiClient::new();
    let hp = NarouHallOfFameApiRequest::new("n1".to_string());
    let r = hof.decode_rankings(200, br#"{"rtype": "20240101-d", "pt": 5, "rank": 2}"#.to_vec(), &hp).unwrap();
    assert_eq!(r.rankings[0].rank, 2);
    let r = hof.decode_rankings(200, b"{}".to_vec(), &hp).unwrap();
    assert!(r.rankings.is_empty());
}

#[test]
fn search_params_queries() {
    let mut p = NovelSearchParams::default();
    p.word = Some("w".to_string());
    p.title = Some(true);
    p.ex = Some(false);
    p.order = Some(NarouOrder::FavNovelCnt);
    p.gzip = Some(9);
    let q = p.to_query();
    assert_eq!(q[0], pair("out", "json"));
    assert!(q.contains(&pair("title", "1")));
    assert!(q.contains(&pair("ex", "0")));
    assert!(q.contains(&pair("order", "favnovelcnt")));
    assert!(!q.iter().any(|(k, _)| k == "gzip"));
    p.gzip = Some(5);
    assert!(p.to_query().contains(&pair("gzip", "5")));
    let mut u = UserSearchParams::default();
    u.userid = Some(12);
    assert_eq!(u.to_query(), vec![pair("out", "json"), pair("userid", "12")]);
    let n = NocturneSearchParams::default();
    assert_eq!(n.to_query(), vec![pair("out", "json")]);
}

#[test]
fn ranking_and_rankin_queries() {
    assert_eq!(
        ranking_query(RankingType::Weekly, &None, Some(3)),
        vec![pair("out", "json"), pair("rtype", "20130501-w"), pair("gzip", "3")]
    );
    assert_eq!(
        ranking_query(RankingType::Yearly, &Some("20240101".to_string()), None),
        vec![pair("out", "json"), pair("rtype", "20240101-y")]
    );
    assert_eq!(
        rankin_query("n1234ab", Some(3), Some(2), &Some("cb".to_string())),
        vec![pair("out", "json"), pair("ncode", "N1234AB"), pair("libtype", "2"), pair("callback", "cb"), pair("gzip", "3")]
    );
    assert_eq!(rankin_query_for("X".to_string(), Some(4), None, &None), vec![pair("out", "json"), pair("ncode", "X"), pair("gzip", "4")]);
}

#[test]
fn first_generation_status_check() {
    let api = NarouNovelApiClient::new();
    let params = NarouNovelApiRequest::default();
    let r = api.decode_search(503, b"[]".to_vec(), &params);
    assert!(matches!(r, Err(ApiError::Network { status: Some(503), .. })));
    let r = NarouHallOfFameApiClient::new().decode_rankings(404, b"{bad".to_vec(), &NarouHallOfFameApiRequest::new("n".to_string()));
    assert!(matches!(r, Err(ApiError::Network { status: Some(404), .. })));
}

#[test]
fn parameter_struct_answers() {
    let novels: Vec<NarouNovel> =
        decode_listing(200, br#"[{"allcount": 2}, {"title": "a"}, {"title": "b"}]"#.to_vec(), false).unwrap();
    assert_eq!(novels.len(), 2);
    assert_eq!(novels[1].title, Some("b".to_string()));
    let records: Vec<NarouRankinRecord> =
        decode_listing(200, br#"[{"pt": 3, "rank": 1, "rtype": "20240101-d"}]"#.to_vec(), false).unwrap();
    assert_eq!(records[0].rtype, "20240101-d");
    let empty: Vec<NarouNovel> = decode_listing(200, Vec::new(), false).unwrap();
    assert!(empty.is_empty());
    let packed: Vec<NarouNovel> = decode_listing(200, gzip(br#"[{"title": "z"}]"#), true).unwrap();
    assert_eq!(packed[0].title, Some("z".to_string()));
    let r: Result<Vec<NarouNovel>, ApiError> = decode_listing(500, b"[]".to_vec(), false);
    assert!(matches!(r, Err(ApiError::Network { status: Some(500), .. })));
    let r: Result<Vec<NarouRankinRecord>, ApiError> = decode_listing(200, br#"[{"pt": 3}]"#.to_vec(), false);
    assert!(matches!(r, Err(ApiError::Deserialization(_))));
    assert!(level_sent(Some(3)) && !level_sent(Some(0)) && !level_sent(Some(6)) && !level_sent(None));
    let mut p = NocturneSearchParams::default();
    assert!(p.genre_within(201, 300));
    p.nocgenre = Some(102);
    assert!(p.genre_within(101, 200));
    assert!(!p.genre_within(0, 100));
}

#[test]
fn first_generation_bare_record() {
    let api = NarouNovelApiClient::new();
    let params = NarouNovelApiRequest::default();
    let r = api.decode_search(200, br#"{"ncode": "n1", "title": "t"}"#.to_vec(), &params).unwrap();
    assert_eq!(r.allcount, 0);
    assert_eq!(r.novels[0].ncode, Some("n1".to_string()));
    let mut selected = NarouNovelApiRequest::default();
    selected.of = Some("t".to_string());
    let r = api.decode_search(200, br#"{"ncode": "n1", "title": "t"}"#.to_vec(), &selected).unwrap();
    assert_eq!(r.novels[0].title, Some("t".to_string()));
    assert_eq!(r.novels[0].ncode, None);
    let users = NarouUserApiClient::new();
    let r = users.decode_search(200, br#"{"name": "no id"}"#.to_vec(), &NarouUserApiRequest::default()).unwrap();
    assert!(r.users.is_empty());
    let novels: Vec<NarouNovel> = decode_listing(200, br#"{"ncode": "n2"}"#.to_vec(), false).unwrap();
    assert_eq!(novels[0].ncode, Some("n2".to_string()));
}
