pub mod body;
pub mod client;
pub mod error;
pub mod listing;
pub mod params;
pub mod parse;
pub mod request;
pub mod response;
pub mod selector;
pub mod tree;
