//! The payloads of requests and responses.

pub mod post;
pub mod user;
