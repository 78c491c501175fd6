//! What runs before a route handler.

pub mod auth;
