pub mod hall_of_fame;
pub mod narou;
pub mod nocturne;
pub mod ranking;
pub mod user;
