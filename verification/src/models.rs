//! Accounts, the session store, and the login / logout / refresh protocol.

pub mod store;
pub mod user;
