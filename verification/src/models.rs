pub mod client;
pub mod enums;
pub mod user;
