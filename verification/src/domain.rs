//! Domain types shared by every layer.

pub mod error;
pub mod model;
pub mod validation;
