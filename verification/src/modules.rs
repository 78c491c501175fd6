//! Leaf components: the credential check and the token codec.

pub mod hash;
pub mod jwt;
