//! Session, user and second-factor management for an authentication service.
//!
//! The verified core: the formats accepted for emails and URLs, password
//! shadowing, session tokens, the login decision procedure, the in-memory
//! session store, and the decisions taken by the service handlers.
pub mod regex;
pub mod constants;
pub mod errors;
pub mod metadata;
pub mod secret;
pub mod security;
pub mod user;
pub mod session;
pub mod grpc;
pub mod models;
pub mod app;
pub mod service;
pub mod transaction;
pub mod mfa;
