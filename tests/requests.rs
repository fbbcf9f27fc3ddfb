use web_novel_scraper::api::narou::models::{NarouOrder, NarouOutputFormat};
use web_novel_scraper::api::narou::ranking_api::RankingType;
use web_novel_scraper::api::nocturne::models::{NocturneGenre, NocturneOrder, NocturneOutputFormat};
use web_novel_scraper::api::{
    ApiRequest, HallOfFameApiClient, HallOfFameRequest, NarouApiClient, NarouRequest, NocturneRequest,
    OutputFormat, RankingApiClient, RankingRequest, UserApiClient, UserRequest,
};

fn pair(k: &str, v: &str) -> (String, String) {
    (k.to_string(), v.to_string())
}

#[test]
fn unset_request_builds_no_params() {
    let mut r = UserRequest::new();
    r.out = None;
    assert!(r.to_query_params().is_empty());
    let mut n = NarouRequest::new();
    n.out = None;
    assert!(n.to_query_params().is_empty());
    let mut c = NocturneRequest::new();
    c.out = None;
    assert!(c.to_query_params().is_empty());
}

#[test]
fn one_field_builds_one_pair() {
    let mut r = UserRequest::new();
    r.out = None;
    r.lim = Some(20);
    assert_eq!(r.to_query_params(), vec![pair("lim", "20")]);
    let mut n = NarouRequest::new();
    n.out = None;
    n.word = Some("abc def".to_string());
    assert_eq!(n.to_query_params(), vec![pair("word", "abc def")]);
    let mut n = NarouRequest::new();
    n.out = None;
    n.isr15 = Some(1);
    assert_eq!(n.to_query_params(), vec![pair("isr15", "1")]);
}

#[test]
fn params_follow_declaration_order() {
    let mut r = NarouRequest::new();
    r.gzip = Some(5);
    r.updatetype = Some(2);
    r.lim = Some(500);
    r.type_filter = Some("er".to_string());
    assert_eq!(
        r.to_query_params(),
        vec![pair("gzip", "5"), pair("out", "json"), pair("lim", "500"), pair("type", "er"), pair("updatetype", "2")]
    );
}

#[test]
fn rank_requests_lead_with_their_key() {
    let r = RankingRequest::new("20240101-d".to_string());
    assert_eq!(r.to_query_params(), vec![pair("rtype", "20240101-d"), pair("out", "json")]);
    let mut h = HallOfFameRequest::new("n0001a".to_string());
    h.out = None;
    h.libtype = Some(2);
    assert_eq!(h.to_query_params(), vec![pair("ncode", "n0001a"), pair("libtype", "2")]);
}

#[test]
fn request_format_and_gzip_flags() {
    let mut r = UserRequest::new();
    assert_eq!(r.output_format(), OutputFormat::Json);
    assert!(!r.is_gzip());
    r.gzip = Some(0);
    assert!(!r.is_gzip());
    r.gzip = Some(3);
    assert!(r.is_gzip());
    r.out = Some("jsonp".to_string());
    r.callback = Some("cb".to_string());
    assert_eq!(r.output_format(), OutputFormat::Jsonp("cb".to_string()));
    assert_eq!(r.get_callback(), Some("cb".to_string()));
    r.out = None;
    assert_eq!(r.output_format(), OutputFormat::Yaml);
}

#[test]
fn selector_codes_map_to_field_names() {
    let c = NarouApiClient;
    assert_eq!(c.map_of_fields("t-n-u"), "title-ncode-userid");
    assert_eq!(c.map_of_fields("zz"), "zz");
    assert_eq!(c.map_of_fields("t-zz-gp"), "title-zz-global_point");
    assert_eq!(c.map_of_fields(""), "");
    assert_eq!(c.map_of_fields("t--n"), "title--ncode");
    let u = UserApiClient;
    assert_eq!(u.map_of_fields("u-n-n1"), "userid-name-name1st");
}

#[test]
fn build_query_params_remaps_the_selector() {
    let mut r = NarouRequest::new();
    r.of = Some("t-n".to_string());
    r.lim = Some(1);
    assert_eq!(
        NarouApiClient.build_query_params(&r),
        vec![pair("out", "json"), pair("of", "title-ncode"), pair("lim", "1")]
    );
    assert_eq!(r.to_query_params()[1], pair("of", "t-n"));
    let mut u = UserRequest::new();
    u.of = Some("sg".to_string());
    assert_eq!(UserApiClient.build_query_params(&u), vec![pair("out", "json"), pair("of", "sum_global_point")]);
}

#[test]
fn base_urls() {
    assert_eq!(NarouApiClient.base_url(), "https://api.syosetu.com/novelapi/api/");
    assert_eq!(RankingApiClient.base_url(), "https://api.syosetu.com/rank/rankget/");
    assert_eq!(HallOfFameApiClient.base_url(), "https://api.syosetu.com/rank/rankin");
    assert_eq!(UserApiClient.base_url(), "https://api.syosetu.com/userapi/api/");
}

#[test]
fn model_names() {
    assert_eq!(NarouOrder::HyokaCntAsc.as_str(), "hyokacntasc");
    assert_eq!(NarouOrder::Old.as_str(), "old");
    assert_eq!(NarouOutputFormat::Php.as_str(), "php");
    assert_eq!(RankingType::Quarter.as_str(), "q");
    assert_eq!(NocturneOrder::NcodeDesc.as_str(), "ncodedesc");
    assert_eq!(NocturneOutputFormat::Yaml.as_str(), "yaml");
}

#[test]
fn genre_sites() {
    assert_eq!(NocturneGenre::NocHistory.value(), 10);
    assert_eq!(NocturneGenre::NocHistory.site_code(), "noc");
    assert_eq!(NocturneGenre::MoonBL.value(), 102);
    assert_eq!(NocturneGenre::MoonBL.site_code(), "mnlt");
    assert_eq!(NocturneGenre::MoonBL.site_name(), "ムーンライトノベルズ");
    assert_eq!(NocturneGenre::MidOther.value(), 207);
    assert_eq!(NocturneGenre::MidOther.site_code(), "mid");
    assert_eq!(NocturneGenre::NocSF.site_name(), "ノクターンノベルズ");
}

#[test]
fn user_params_follow_declaration_order() {
    let mut r = UserRequest::new();
    r.out = None;
    r.order = Some("new".to_string());
    r.libtype = Some(1);
    r.word = Some("x".to_string());
    assert_eq!(r.to_query_params(), vec![pair("order", "new"), pair("libtype", "1"), pair("word", "x")]);
}
