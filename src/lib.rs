pub mod config;
pub mod exceptions;
pub mod query_contexts;
pub mod query_services;
pub mod registry;
pub mod response_type;
pub mod server;
pub mod session;
