pub mod application;
pub mod domain;
pub mod framework;
pub mod grpc;
