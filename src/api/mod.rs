pub mod common;
pub mod endpoints;
pub mod narou;
pub mod nocturne;

pub use common::client::DEFAULT_USER_AGENT;
pub use common::error::ApiError;
pub use common::request::ApiRequest;
pub use common::response::{ApiResponse, OutputFormat, ResponseProcessor};
pub use endpoints::hall_of_fame::{HallOfFameApiClient, HallOfFameRequest, HallOfFameResponse};
pub use endpoints::narou::{NarouApiClient, NarouRequest, NarouResponse};
pub use endpoints::nocturne::{NocturneApiClient, NocturneRequest, NocturneResponse};
pub use endpoints::ranking::{RankingApiClient, RankingRequest, RankingResponse};
pub use endpoints::user::{UserApiClient, UserRequest, UserResponse};
