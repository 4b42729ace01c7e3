//! The external music service: response data models and the client state
//! with its token-refresh decisions.

pub mod client;
pub mod models;
