//! What each endpoint answers, as values for the transport to send.

pub mod health;
pub mod user;
