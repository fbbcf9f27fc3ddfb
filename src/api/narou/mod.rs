pub mod models;
pub mod novel_api;
pub mod rankin_api;
pub mod ranking_api;
pub mod user_api;
