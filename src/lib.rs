//! Client library for the novel-site web APIs: query building, response
//! decoding and the small data types around episode and rating pages.
pub mod api;
pub mod api_hall_of_fame;
pub mod api_narou;
pub mod api_nocturne;
pub mod api_ranking;
pub mod api_user;
pub mod fetcher;
pub mod novel_scraper;
pub mod rating_scraper;

pub use fetcher::{FetchOptions, RequestDelayConfig, UserAgentMode};
pub use novel_scraper::{Episode, NarouNovelScraper, NovelContent, NovelType};
pub use rating_scraper::NarouRatingScraper;

pub use api_hall_of_fame::{NarouHallOfFameApiClient, NarouHallOfFameApiRequest, NarouHallOfFameApiResponse};
pub use api_narou::{NarouNovelApiClient, NarouNovelApiRequest, NarouNovelApiResponse, NarouNovelInfo};
pub use api_nocturne::{NocturneNovelApiClient, NocturneNovelApiRequest, NocturneNovelApiResponse, NocturneNovelInfo};
pub use api_ranking::{NarouRankingApiClient, NarouRankingApiRequest, NarouRankingApiResponse, RankingEntry};
pub use api_user::{NarouUserApiClient, NarouUserApiRequest, NarouUserApiResponse, NarouUserInfo};
pub use api_hall_of_fame::HallOfFameEntry;
