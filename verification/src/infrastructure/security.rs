//! Security building blocks shared by the request stages.

pub mod cors;
pub mod headers;
pub mod hsts;
pub mod keys;
