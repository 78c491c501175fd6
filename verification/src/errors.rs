//! The closed error kinds of the session core.

use vstd::prelude::*;
use vstd::string::StringExecFns;

verus! {

/// Why a token was not accepted.
#[derive(Debug, Clone, Copy, PartialEq, Eq, Structural)]
pub enum TokenError {
    /// The token is authentic but the current time has reached its expiry.
    Expired,
    /// The token has a bad signature or a bad structure.
    Malformed,
}

/// The password hasher itself failed (malformed hash, mismatched parameters).
/// Distinct from a password that simply does not match.
#[derive(Debug, Clone, Copy, PartialEq, Eq, Structural)]
pub struct HashingError;

/// Failures surfaced by login, logout, refresh and account creation.
#[derive(Debug, Clone, Copy, PartialEq, Eq, Structural)]
pub enum AuthError {
    /// Unknown account name or wrong password; the two are not told apart.
    InvalidCredentials,
    /// No account has the given id.
    AccountNotFound,
    /// The presented refresh token is expired, malformed, superseded or cleared.
    RefreshRejected,
    /// A password could not be hashed.
    HashingFailure,
    /// The account store could not be reached.
    StoreUnavailable,
    /// A token could not be signed, or its expiry cannot be represented.
    SigningUnavailable,
    /// An account with the same email already exists.
    EmailInUse,
}

impl AuthError {
    /// The text shown to an untrusted client for each kind of failure.
    pub open spec fn message_spec(self) -> Seq<char> {
        match self {
            AuthError::InvalidCredentials => "invalid credentials"@,
            AuthError::AccountNotFound => "account not found"@,
            AuthError::RefreshRejected => "refresh rejected"@,
            AuthError::HashingFailure => "internal error"@,
            AuthError::StoreUnavailable => "internal error"@,
            AuthError::SigningUnavailable => "internal error"@,
            AuthError::EmailInUse => "Email already in use"@,
        }
    }

    /// True for the failures of the infrastructure, which a transport reports
    /// as a server error and whose detail is never shown to the client.
    pub open spec fn is_infrastructure_spec(self) -> bool {
        self == AuthError::HashingFailure || self == AuthError::StoreUnavailable || self
            == AuthError::SigningUnavailable
    }

    /// Whether this failure is the infrastructure's rather than the client's.
    #[verifier::when_used_as_spec(is_infrastructure_spec)]
    pub fn is_infrastructure(self) -> (internal: bool)
        ensures
            internal == self.is_infrastructure_spec(),
    {
        match self {
            AuthError::HashingFailure => true,
            AuthError::StoreUnavailable => true,
            AuthError::SigningUnavailable => true,
            _ => false,
        }
    }

    /// A generic message for the client. Infrastructure failures all read the
    /// same, so that no internal detail leaks.
    pub fn message(self) -> (text: String)
        ensures
            text@ == self.message_spec(),
    {
        match self {
            AuthError::InvalidCredentials => String::from_str("invalid credentials"),
            AuthError::AccountNotFound => String::from_str("account not found"),
            AuthError::RefreshRejected => String::from_str("refresh rejected"),
            AuthError::HashingFailure => String::from_str("internal error"),
            AuthError::StoreUnavailable => String::from_str("internal error"),
            AuthError::SigningUnavailable => String::from_str("internal error"),
            AuthError::EmailInUse => String::from_str("Email already in use"),
        }
    }
}

} // verus!
