pub mod application;
pub mod domain;
