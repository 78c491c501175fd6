//! Session authentication core: password-check outcomes, signed expiring
//! tokens, the per-account refresh-token store, login / logout / refresh
//! with rotation, and the guard in front of protected routes.
//!
//! Everything here is verified but for three calls, which are believed as
//! their contracts in [`modules::jwt`] describe them: `jsonwebtoken::encode`,
//! `jsonwebtoken::decode` and `chrono::Utc::now`. Time enters every operation
//! as a value, so that what an operation does is a function of its arguments.

pub mod config;
pub mod errors;
pub mod handlers;
pub mod laws;
pub mod middleware;
pub mod models;
pub mod modules;
pub mod views;
