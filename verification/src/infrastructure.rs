//! What the domain leans on: key material and the authentication machinery.

pub mod auth;
pub mod security;
