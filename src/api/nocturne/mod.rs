pub mod models;
pub mod novel_api;
