pub mod domain;
pub mod error;
pub mod strategy;
