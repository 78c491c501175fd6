//! The request guard: a protected route is reached only with a valid,
//! unexpired access token; public routes are let through untouched.
//!
//! The guard is stateless. It looks at the path, the authorization header and
//! the clock, never at the session store, and it never rotates a token.

use vstd::prelude::*;
use crate::errors::TokenError;
use crate::modules::jwt::{Claims, token_verdict, verify_token};
use crate::views::str_view;
use vstd::string::StringExecFns;

verus! {

/// Why the guard turned a request away.
#[derive(Debug, Clone, Copy, PartialEq, Eq, Structural)]
pub enum Rejection {
    /// The request carries no authorization header.
    MissingCredentials,
    /// The token in the header is expired or malformed.
    InvalidToken,
}

/// What the guard does with a request.
#[derive(Debug, Clone, Copy, PartialEq, Eq, Structural)]
pub enum GateDecision {
    /// The request goes on, unchanged, to the next stage.
    Admit,
    /// The request is answered as unauthorized.
    Unauthorized(Rejection),
}

/// The settings of the guard, from which the guard itself is made.
#[derive(Debug)]
pub struct Auth {
    public_paths: Vec<String>,
    secret: String,
}

/// The guard.
#[derive(Debug)]
pub struct AuthMiddleware {
    public_paths: Vec<String>,
    secret: String,
}

/// The values of a list of paths.
pub open spec fn paths_view(paths: Seq<String>) -> Seq<Seq<char>> {
    paths.map_values(|p: String| p@)
}

/// The decision on a request, from whether its path is public and from the
/// verdict on its token, if it carries one.
pub open spec fn decide_spec(public: bool, verdict: Option<Result<Claims, TokenError>>) -> GateDecision {
    if public {
        GateDecision::Admit
    } else {
        match verdict {
            None => GateDecision::Unauthorized(Rejection::MissingCredentials),
            Some(Ok(_)) => GateDecision::Admit,
            Some(Err(_)) => GateDecision::Unauthorized(Rejection::InvalidToken),
        }
    }
}

/// The verdict on the token of a request that carries one. The whole value
/// of the header is the token.
pub open spec fn header_verdict(secret: Seq<char>, authorization: Option<Seq<char>>, now: u64) -> Option<
    Result<Claims, TokenError>,
> {
    match authorization {
        Some(token) => Some(token_verdict(token, secret, now)),
        None => None,
    }
}

/// The decision of a guard with the given public paths and secret on a
/// request at time `now`.
pub open spec fn gate_spec(
    public_paths: Seq<Seq<char>>,
    secret: Seq<char>,
    path: Seq<char>,
    authorization: Option<Seq<char>>,
    now: u64,
) -> GateDecision {
    decide_spec(public_paths.contains(path), header_verdict(secret, authorization, now))
}

impl Rejection {
    /// The text of each rejection.
    pub open spec fn message_spec(self) -> Seq<char> {
        match self {
            Rejection::MissingCredentials => "missing credentials"@,
            Rejection::InvalidToken => "invalid token"@,
        }
    }

    /// The reason given to the client. It says nothing of signatures,
    /// algorithms or expiry.
    pub fn message(self) -> (text: String)
        ensures
            text@ == self.message_spec(),
    {
        match self {
            Rejection::MissingCredentials => String::from_str("missing credentials"),
            Rejection::InvalidToken => String::from_str("invalid token"),
        }
    }
}

/// Copies a list of paths.
fn copy_paths(paths: &Vec<String>) -> (copy: Vec<String>)
    ensures
        paths_view(copy@) == paths_view(paths@),
{
    let mut copy: Vec<String> = Vec::new();
    let mut i: usize = 0;
    while i < paths.len()
        invariant
            i <= paths.len(),
            copy@.len() == i,
            forall|j: int| 0 <= j < i ==> copy@[j]@ == paths@[j]@,
        decreases paths.len() - i,
    {
        copy.push(paths[i].clone());
        i += 1;
    }
    assert(paths_view(copy@) =~= paths_view(paths@));
    copy
}

impl Auth {
    /// The paths that are open to everyone.
    pub closed spec fn public_paths(&self) -> Seq<Seq<char>> {
        paths_view(self.public_paths@)
    }

    /// The secret that access tokens are signed with.
    pub closed spec fn secret(&self) -> Seq<char> {
        self.secret@
    }

    /// Settings for a guard that lets `public_paths` through and checks access
    /// tokens against `secret` everywhere else.
    pub fn new(public_paths: Vec<String>, secret: String) -> (auth: Auth)
        ensures
            auth.public_paths() == paths_view(public_paths@),
            auth.secret() == secret@,
    {
        Auth { public_paths, secret }
    }

    /// Makes the guard.
    pub fn new_transform(&self) -> (middleware: AuthMiddleware)
        ensures
            middleware.public_paths() == self.public_paths(),
            middleware.secret() == self.secret(),
    {
        AuthMiddleware { public_paths: copy_paths(&self.public_paths), secret: self.secret.clone() }
    }
}

impl AuthMiddleware {
    /// The paths that are open to everyone.
    pub closed spec fn public_paths(&self) -> Seq<Seq<char>> {
        paths_view(self.public_paths@)
    }

    /// The secret that access tokens are signed with.
    pub closed spec fn secret(&self) -> Seq<char> {
        self.secret@
    }

    /// Whether a path is on the list of public paths.
    pub fn is_public(&self, path: &str) -> (public: bool)
        ensures
            public == self.public_paths().contains(path@),
    {
        let wanted = path.to_owned();
        let mut i: usize = 0;
        while i < self.public_paths.len()
            invariant
                i <= self.public_paths.len(),
                wanted@ == path@,
                forall|j: int| 0 <= j < i ==> self.public_paths()[j] != path@,
            decreases self.public_paths.len() - i,
        {
            if self.public_paths[i] == wanted {
                assert(self.public_paths()[i as int] == path@);
                return true;
            }
            i += 1;
        }
        false
    }

    /// Decides on a request from whether its path is public and from the
    /// verdict on its token, if it carries one.
    pub fn decide(public: bool, verdict: Option<Result<Claims, TokenError>>) -> (decision:
        GateDecision)
        ensures
            decision == decide_spec(public, verdict),
    {
        if public {
            return GateDecision::Admit;
        }
        match verdict {
            None => GateDecision::Unauthorized(Rejection::MissingCredentials),
            Some(Ok(_)) => GateDecision::Admit,
            Some(Err(_)) => GateDecision::Unauthorized(Rejection::InvalidToken),
        }
    }

    /// Judges a request at time `now`.
    ///
    /// A public path is admitted whatever the header holds. Elsewhere a
    /// request without an authorization header is turned away for missing
    /// credentials, one whose token does not verify for an invalid token, and
    /// one whose token verifies is admitted.
    pub fn call(&self, path: &str, authorization: Option<&str>, now: u64) -> (decision:
        GateDecision)
        ensures
            decision == gate_spec(
                self.public_paths(),
                self.secret(),
                path@,
                str_view(authorization),
                now,
            ),
    {
        if self.is_public(path) {
            return GateDecision::Admit;
        }
        let verdict = match authorization {
            Some(token) => Some(verify_token(token, self.secret.as_str(), now)),
            None => None,
        };
        AuthMiddleware::decide(false, verdict)
    }
}

} // verus!
