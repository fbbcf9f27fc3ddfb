use std::time::Duration;

use web_novel_scraper::fetcher::{cookie_header, parse_cookie, parse_cookies, rating_page_url};
use web_novel_scraper::{
    Episode, FetchOptions, NarouNovelScraper, NarouRatingScraper, NovelContent, NovelType, RequestDelayConfig,
    UserAgentMode,
};

#[test]
fn test_delay_config_disabled() {
    let config = RequestDelayConfig::disabled();
    assert!(!config.enabled);
    assert_eq!(Duration::from_millis(config.get_random_delay()), Duration::from_millis(0));
}

#[test]
fn test_delay_config_random_range() {
    let config = RequestDelayConfig::new(100, 500);
    for _ in 0..10 {
        let delay = Duration::from_millis(config.get_random_delay());
        assert!(delay >= Duration::from_millis(100));
        assert!(delay <= Duration::from_millis(500));
    }
}

#[test]
fn test_delay_config_fixed_delay() {
    let config = RequestDelayConfig::new(1000, 1000);
    let delay = Duration::from_millis(config.get_random_delay());
    assert_eq!(delay, Duration::from_millis(1000));
}

#[test]
fn delay_defaults_and_waits() {
    let d = RequestDelayConfig::default();
    assert!(d.enabled);
    assert_eq!(d.min_delay_ms, 1000);
    assert_eq!(d.max_delay_ms, 3000);
    assert_eq!(d.wait_before(1500, Some(400)), Some(1100));
    assert_eq!(d.wait_before(1500, Some(1500)), None);
    assert_eq!(d.wait_before(1500, None), None);
    assert_eq!(RequestDelayConfig::disabled().wait_before(1500, Some(0)), None);
}

#[test]
fn user_agent_modes() {
    let m = UserAgentMode::default();
    assert_eq!(m.current_user_agent(), None);
    let fixed = m.to_fixed("A/1".to_string());
    assert_eq!(fixed.current_user_agent(), Some("A/1".to_string()));
    assert_eq!(fixed.to_fixed("B/2".to_string()).current_user_agent(), Some("A/1".to_string()));
    let (ua, next) = UserAgentMode::Fixed(None).resolve(None, "C/3".to_string());
    assert_eq!(ua, "C/3");
    assert_eq!(next.current_user_agent(), Some("C/3".to_string()));
    let (ua, next) = UserAgentMode::RandomEveryRequest.resolve(Some("MyBot/1.0"), "D/4".to_string());
    assert_eq!(ua, "MyBot/1.0");
    assert_eq!(next.current_user_agent(), None);
    let (ua, _) = UserAgentMode::RandomEveryRequest.resolve(None, "E/5".to_string());
    assert_eq!(ua, "E/5");
}

#[test]
fn cookies() {
    assert_eq!(parse_cookie("a=b=c"), Some(("a".to_string(), "b=c".to_string())));
    assert_eq!(parse_cookie("=x"), Some(("".to_string(), "x".to_string())));
    assert_eq!(parse_cookie("nokey"), None);
    let ok = parse_cookies(&vec!["over18=yes".to_string(), "ks2=abc".to_string()]).unwrap();
    assert_eq!(ok, vec![("over18".to_string(), "yes".to_string()), ("ks2".to_string(), "abc".to_string())]);
    assert!(parse_cookies(&vec!["a=1".to_string(), "broken".to_string()]).is_err());
    assert_eq!(cookie_header(&vec![("a", "1"), ("b", "2")]), "a=1; b=2");
    assert_eq!(cookie_header(&vec![]), "");
    let o = FetchOptions::default();
    assert!(o.cookies.is_none() && o.custom_user_agent.is_none());
}

#[test]
fn novel_urls_and_plan() {
    let s = NarouNovelScraper::new(());
    assert_eq!(s.build_novel_url("n1234ab", None), "https://ncode.syosetu.com/n1234ab/");
    assert_eq!(s.build_novel_url("n1234ab", Some(12)), "https://ncode.syosetu.com/n1234ab/12/");
    let n = NarouNovelScraper::new_nocturne(());
    assert_eq!(n.build_novel_url("n9", Some(1)), "https://novel18.syosetu.com/n9/1/");
    let plan = s.page_plan("n1", NovelType::Serial { total_episodes: 3 });
    assert_eq!(plan.len(), 3);
    assert_eq!(plan[2], (3, "https://ncode.syosetu.com/n1/3/".to_string()));
    let plan = n.page_plan("n2", NovelType::ShortStory);
    assert_eq!(plan, vec![(0, "https://novel18.syosetu.com/n2/".to_string())]);
}

#[test]
fn novel_content_queries() {
    let serial = NovelContent {
        ncode: "n1".to_string(),
        novel_type: NovelType::Serial { total_episodes: 2 },
        episodes: vec![
            Episode { episode_number: 1, html: "ab".to_string() },
            Episode { episode_number: 2, html: "あ".to_string() },
        ],
    };
    assert_eq!(serial.episode_count(), 2);
    assert_eq!(serial.get_episode(2).unwrap().html, "あ");
    assert!(serial.get_episode(0).is_none());
    assert_eq!(serial.total_size_bytes(), 5);
    let short = NovelContent {
        ncode: "n2".to_string(),
        novel_type: NovelType::ShortStory,
        episodes: vec![Episode { episode_number: 0, html: "x".to_string() }],
    };
    assert_eq!(short.get_episode(0).unwrap().html, "x");
    assert!(short.get_episode(1).is_none());
}

#[test]
fn rating_pages() {
    let s = NarouRatingScraper::new(());
    assert_eq!(s.fetcher, ());
    assert_eq!(rating_page_url(42, 1), "https://mypage.syosetu.com/mypagenovelhyoka/list/userid/42/");
    assert_eq!(rating_page_url(42, 3), "https://mypage.syosetu.com/mypagenovelhyoka/list/userid/42/?p=3");
    let more = r#"<a href="?p=2" class="c-pager__item" title="次へ">"#;
    let last = r#"<span class="c-pager__item is-disabled" title="次へ">"#;
    assert!(NarouRatingScraper::<()>::has_next_page(more));
    assert!(!NarouRatingScraper::<()>::has_next_page(last));
    assert!(!NarouRatingScraper::<()>::has_next_page("<html></html>"));
    assert_eq!(NarouRatingScraper::<()>::next_page(1, 5, more), Some(2));
    assert_eq!(NarouRatingScraper::<()>::next_page(1, 0, more), None);
    assert_eq!(NarouRatingScraper::<()>::next_page(4, 5, last), None);
}
