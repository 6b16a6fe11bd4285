//! What the outside world talks to.

pub mod api;
