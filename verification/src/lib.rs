//! Loading, validation, and representation of a microservice's immutable
//! runtime configuration: an inbound server binding plus client endpoints
//! for an events-manager service and an auth service, resolved from named
//! environment variables once, at process start.

pub mod conf;
pub mod decimal;
pub mod errors;
