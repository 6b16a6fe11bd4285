//! The core of a small HTTP backend with posts and users behind token-based
//! authentication and role-based authorization.
//!
//! The heart of it is authentication: the key material of the process,
//! password hashing with Argon2, signed tokens that carry subject, role and
//! expiry, and the two guards that decide on a request by its bearer token
//! and by the role of its caller. Around it stand the use cases on users
//! and posts, the validation of payloads, and the policies on origins and
//! headers.
//!
//! Nothing here touches the network, the database or the file system. The
//! guards and use cases are functions from what a request carries and what
//! the repository found to what is to be answered or stored; a server calls
//! them between its reads and its writes.

pub mod application;
pub mod config;
pub mod domain;
pub mod infrastructure;
pub mod interfaces;
pub mod text;
