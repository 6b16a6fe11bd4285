//! The use cases: what the handlers ask of the domain.

pub mod post_service;
pub mod user_service;
