//! The HTTP interface: its errors, its payloads and their validation.

pub mod dto;
pub mod error;
pub mod validation;
